//! The soundboard: banks of pads, their default layout, the edits the user
//! makes to them, and what playing a pad takes from its sound.

use vstd::prelude::*;
use crate::dsp::SAMPLE_RATE;
use std::path::PathBuf;

verus! {

/// Pads each bank holds at least.
pub const PADS_PER_BANK: usize = 15;

/// Slots reserved per bank in the mixer's pad identifier space.
pub const PAD_ID_STRIDE: usize = 1_000_000;

/// Bit pattern (IEEE-754 single precision) of the linear gain 1.0.
pub const UNIT_GAIN_BITS: u32 = 0x3F80_0000;

/// The mixer identifier of a pad: `bank * 1_000_000 + slot`, saturating at
/// `usize::MAX` at either step.
pub open spec fn spec_pad_id(bank: usize, slot: usize) -> int {
    let scaled = if bank * PAD_ID_STRIDE > usize::MAX {
        usize::MAX as int
    } else {
        bank * PAD_ID_STRIDE
    };
    if scaled + slot > usize::MAX {
        usize::MAX as int
    } else {
        scaled + slot
    }
}

/// The mixer identifier of the pad in `slot` of `bank`.
pub fn pad_id(bank: usize, slot: usize) -> (id: usize)
    ensures
        id == spec_pad_id(bank, slot),
{
    let scaled = match bank.checked_mul(PAD_ID_STRIDE) {
        Some(v) => v,
        None => usize::MAX,
    };
    scaled.saturating_add(slot)
}

/// One sound slot of a bank.
///
/// The two volumes are linear gains stored as the bit pattern of an IEEE-754
/// single-precision number; the soundboard carries them unchanged.
#[derive(Debug)]
pub struct Pad {
    pub id: usize,
    pub bank: usize,
    pub name: String,
    pub path: Option<PathBuf>,
    pub hotkey: Option<String>,
    pub monitor_volume: u32,
    pub stream_volume: u32,
    pub trim_start_ms: u32,
    pub trim_end_ms: u32,
    pub duration_ms: u32,
    pub bass_boost: bool,
    pub play_mode: String,
}

/// The text of an optional string.
pub open spec fn opt_text(o: Option<String>) -> Option<Seq<char>> {
    match o {
        Some(s) => Some(s@),
        None => None,
    }
}

/// The hotkey label a fresh pad gets in a slot: 1-9, 0, Q, W, E, R, T for the
/// first fifteen slots, none after them.
pub open spec fn default_hotkey_label(slot: int) -> Option<Seq<char>> {
    if slot == 0 {
        Some("1"@)
    } else if slot == 1 {
        Some("2"@)
    } else if slot == 2 {
        Some("3"@)
    } else if slot == 3 {
        Some("4"@)
    } else if slot == 4 {
        Some("5"@)
    } else if slot == 5 {
        Some("6"@)
    } else if slot == 6 {
        Some("7"@)
    } else if slot == 7 {
        Some("8"@)
    } else if slot == 8 {
        Some("9"@)
    } else if slot == 9 {
        Some("0"@)
    } else if slot == 10 {
        Some("Q"@)
    } else if slot == 11 {
        Some("W"@)
    } else if slot == 12 {
        Some("E"@)
    } else if slot == 13 {
        Some("R"@)
    } else if slot == 14 {
        Some("T"@)
    } else {
        None
    }
}

/// `p` is an empty pad numbered `id` in `bank` with the given hotkey: no
/// name, no sound, full volumes, no trim, no bass boost, one-shot playback.
pub open spec fn is_fresh_pad(p: Pad, id: int, bank: int, hotkey: Option<Seq<char>>) -> bool {
    &&& p.id == id
    &&& p.bank == bank
    &&& p.name@ == Seq::<char>::empty()
    &&& p.path is None
    &&& opt_text(p.hotkey) == hotkey
    &&& p.monitor_volume == UNIT_GAIN_BITS
    &&& p.stream_volume == UNIT_GAIN_BITS
    &&& p.trim_start_ms == 0
    &&& p.trim_end_ms == 0
    &&& p.duration_ms == 0
    &&& !p.bass_boost
    &&& p.play_mode@ == "oneshot"@
}

/// The default hotkey label of a slot.
pub fn default_hotkey(slot: usize) -> (r: Option<String>)
    ensures
        opt_text(r) == default_hotkey_label(slot as int),
{
    let label = if slot == 0 {
        "1"
    } else if slot == 1 {
        "2"
    } else if slot == 2 {
        "3"
    } else if slot == 3 {
        "4"
    } else if slot == 4 {
        "5"
    } else if slot == 5 {
        "6"
    } else if slot == 6 {
        "7"
    } else if slot == 7 {
        "8"
    } else if slot == 8 {
        "9"
    } else if slot == 9 {
        "0"
    } else if slot == 10 {
        "Q"
    } else if slot == 11 {
        "W"
    } else if slot == 12 {
        "E"
    } else if slot == 13 {
        "R"
    } else if slot == 14 {
        "T"
    } else {
        return None;
    };
    Some(String::from_str(label))
}

/// The play mode of a fresh pad.
pub fn oneshot() -> (r: String)
    ensures
        r@ == "oneshot"@,
{
    String::from_str("oneshot")
}

/// The bit pattern of the full volume a fresh pad gets.
pub fn full() -> (r: u32)
    ensures
        r == UNIT_GAIN_BITS,
{
    UNIT_GAIN_BITS
}

/// A fresh pad numbered `id` in `bank` with the given hotkey.
pub fn fresh_pad(id: usize, bank: usize, hotkey: Option<String>) -> (r: Pad)
    ensures
        is_fresh_pad(r, id as int, bank as int, opt_text(hotkey)),
{
    Pad {
        id,
        bank,
        name: String::new(),
        path: None,
        hotkey,
        monitor_volume: full(),
        stream_volume: full(),
        trim_start_ms: 0,
        trim_end_ms: 0,
        duration_ms: 0,
        bass_boost: false,
        play_mode: oneshot(),
    }
}

fn clone_opt_path(o: &Option<PathBuf>) -> (r: Option<PathBuf>)
    ensures
        r == *o,
{
    match o {
        Some(p) => Some(p.clone()),
        None => None,
    }
}

fn clone_opt_text(o: &Option<String>) -> (r: Option<String>)
    ensures
        r == *o,
{
    match o {
        Some(s) => Some(s.clone()),
        None => None,
    }
}

impl Clone for Pad {
    fn clone(&self) -> (r: Self)
        ensures
            r == *self,
    {
        Pad {
            id: self.id,
            bank: self.bank,
            name: self.name.clone(),
            path: clone_opt_path(&self.path),
            hotkey: clone_opt_text(&self.hotkey),
            monitor_volume: self.monitor_volume,
            stream_volume: self.stream_volume,
            trim_start_ms: self.trim_start_ms,
            trim_end_ms: self.trim_end_ms,
            duration_ms: self.duration_ms,
            bass_boost: self.bass_boost,
            play_mode: self.play_mode.clone(),
        }
    }
}

impl Default for Pad {
    fn default() -> (r: Self)
        ensures
            is_fresh_pad(r, 0, 0, None),
    {
        fresh_pad(0, 0, None)
    }
}

/// A named bank of pads.
#[derive(Debug)]
pub struct Bank {
    pub name: String,
    pub pads: Vec<Pad>,
}

/// Every pad of `b` is fresh, numbered by its slot, in bank `bank`, with the
/// slot's default hotkey, and there are exactly `PADS_PER_BANK` of them.
pub open spec fn is_fresh_bank(b: Bank, bank: int) -> bool {
    &&& b.pads.len() == PADS_PER_BANK
    &&& forall|j: int| 0 <= j < b.pads.len() ==> is_fresh_pad(#[trigger] b.pads[j], j, bank, default_hotkey_label(j))
}

impl Bank {
    /// A bank called `name`, numbered `bank`, with fifteen fresh pads.
    pub fn new(name: &str, bank: usize) -> (r: Bank)
        ensures
            r.name@ == name@,
            is_fresh_bank(r, bank as int),
    {
        let mut pads: Vec<Pad> = Vec::new();
        let mut id: usize = 0;
        while id < PADS_PER_BANK
            invariant
                id <= PADS_PER_BANK,
                pads.len() == id,
                forall|j: int| 0 <= j < id ==> is_fresh_pad(#[trigger] pads[j], j, bank as int, default_hotkey_label(j)),
            decreases PADS_PER_BANK - id,
        {
            pads.push(fresh_pad(id, bank, default_hotkey(id)));
            id = id + 1;
        }
        Bank { name: String::from_str(name), pads }
    }
}

impl Clone for Bank {
    fn clone(&self) -> (r: Self)
        ensures
            r.name == self.name,
            r.pads@ == self.pads@,
    {
        let mut pads: Vec<Pad> = Vec::new();
        let mut j: usize = 0;
        while j < self.pads.len()
            invariant
                j <= self.pads.len(),
                pads@ == self.pads@.take(j as int),
            decreases self.pads.len() - j,
        {
            pads.push(self.pads[j].clone());
            j = j + 1;
            assert(pads@ =~= self.pads@.take(j as int));
        }
        assert(pads@ =~= self.pads@);
        Bank { name: self.name.clone(), pads }
    }
}

/// All banks of the soundboard, in order.
#[derive(Debug)]
pub struct Soundboard {
    pub banks: Vec<Bank>,
}

/// The name of the `i`-th bank of a fresh soundboard.
pub open spec fn default_bank_name(i: int) -> Seq<char> {
    if i == 0 {
        "Мемы"@
    } else if i == 1 {
        "Катка"@
    } else {
        "Стрим"@
    }
}

/// Banks a fresh soundboard holds.
pub const DEFAULT_BANK_COUNT: usize = 3;

/// `b` is the fresh soundboard: three default-named banks of fresh pads.
pub open spec fn is_default_board(b: Soundboard) -> bool {
    &&& b.banks.len() == DEFAULT_BANK_COUNT
    &&& forall|i: int| 0 <= i < b.banks.len() ==> (#[trigger] b.banks[i]).name@ == default_bank_name(i)
        && is_fresh_bank(b.banks[i], i)
}

/// The pad `p` renumbered to slot `id` of bank `bank`, all else kept.
pub open spec fn renumbered(p: Pad, id: int, bank: int) -> Pad {
    Pad { id: id as usize, bank: bank as usize, ..p }
}

/// `new` is the bank `old`, as the `idx`-th bank, with its pads renumbered by
/// slot and topped up with fresh pads to `PADS_PER_BANK`.
pub open spec fn is_fixed_bank(old: Bank, new: Bank, idx: int) -> bool {
    &&& new.name == old.name
    &&& new.pads.len() == (if old.pads.len() < PADS_PER_BANK { PADS_PER_BANK as int } else { old.pads.len() as int })
    &&& forall|j: int| 0 <= j < old.pads.len() ==> #[trigger] new.pads[j] == renumbered(old.pads[j], j, idx)
    &&& forall|j: int| old.pads.len() <= j < new.pads.len() ==> is_fresh_pad(#[trigger] new.pads[j], j, idx, default_hotkey_label(j))
}

/// `new` is `old` with every bank fixed as `is_fixed_bank` says.
pub open spec fn is_fixed_board(old: Soundboard, new: Soundboard) -> bool {
    &&& new.banks.len() == old.banks.len()
    &&& forall|i: int| 0 <= i < old.banks.len() ==> is_fixed_bank(old.banks[i], #[trigger] new.banks[i], i)
}

fn fix_bank(bank: Bank, idx: usize) -> (r: Bank)
    ensures
        is_fixed_bank(bank, r, idx as int),
{
    let Bank { name, pads } = bank;
    let ghost orig = pads@;
    let mut rest = pads;
    let mut out: Vec<Pad> = Vec::new();
    let n = rest.len();
    let mut j: usize = 0;
    while j < n
        invariant
            n == orig.len(),
            j <= n,
            out.len() == j,
            rest@ == orig.skip(j as int),
            forall|m: int| 0 <= m < j ==> #[trigger] out[m] == renumbered(orig[m], m, idx as int),
        decreases n - j,
    {
        let mut p = rest.remove(0);
        assert(p == orig[j as int]);
        p.id = j;
        p.bank = idx;
        out.push(p);
        j = j + 1;
        assert(rest@ =~= orig.skip(j as int));
    }
    while out.len() < PADS_PER_BANK
        invariant
            n == orig.len(),
            out.len() >= n,
            forall|m: int| 0 <= m < n ==> #[trigger] out[m] == renumbered(orig[m], m, idx as int),
            forall|m: int| n <= m < out.len() ==> is_fresh_pad(#[trigger] out[m], m, idx as int, default_hotkey_label(m)),
            n >= PADS_PER_BANK ==> out.len() == n,
            n < PADS_PER_BANK ==> out.len() <= PADS_PER_BANK,
        decreases PADS_PER_BANK - out.len(),
    {
        let id = out.len();
        out.push(fresh_pad(id, idx, default_hotkey(id)));
    }
    Bank { name, pads: out }
}

impl Soundboard {
    /// The fresh soundboard: banks "Мемы", "Катка" and "Стрим" of fifteen
    /// fresh pads each.
    pub fn new_default() -> (r: Soundboard)
        ensures
            is_default_board(r),
    {
        let mut banks: Vec<Bank> = Vec::new();
        banks.push(Bank::new("Мемы", 0));
        banks.push(Bank::new("Катка", 1));
        banks.push(Bank::new("Стрим", 2));
        Soundboard { banks }
    }

    /// Numbers every pad by its bank and slot, and tops up short banks with
    /// fresh pads.
    pub fn with_fixed_indices(self) -> (r: Self)
        ensures
            is_fixed_board(self, r),
    {
        let ghost orig = self.banks@;
        let Soundboard { banks } = self;
        let mut rest = banks;
        let mut out: Vec<Bank> = Vec::new();
        let n = rest.len();
        let mut i: usize = 0;
        while i < n
            invariant
                n == orig.len(),
                i <= n,
                out.len() == i,
                rest@ == orig.skip(i as int),
                forall|m: int| 0 <= m < i ==> is_fixed_bank(orig[m], #[trigger] out[m], m),
            decreases n - i,
        {
            let b = rest.remove(0);
            assert(b == orig[i as int]);
            out.push(fix_bank(b, i));
            i = i + 1;
            assert(rest@ =~= orig.skip(i as int));
        }
        Soundboard { banks: out }
    }

    /// The soundboard as loaded: the stored board when it could be read and
    /// parsed, the fresh board otherwise, with indices fixed either way.
    pub fn load_or_default(stored: Option<Soundboard>) -> (r: Soundboard)
        ensures
            match stored {
                Some(b) => is_fixed_board(b, r),
                None => is_default_board(r),
            },
    {
        match stored {
            Some(b) => b.with_fixed_indices(),
            None => {
                let d = Self::new_default();
                let r = d.with_fixed_indices();
                assert forall|i: int| 0 <= i < r.banks.len() implies (#[trigger] r.banks[i]).name@ == default_bank_name(i)
                    && is_fresh_bank(r.banks[i], i) by {
                    assert(is_fixed_bank(d.banks[i], r.banks[i], i));
                    assert forall|j: int| 0 <= j < r.banks[i].pads.len() implies
                        is_fresh_pad(#[trigger] r.banks[i].pads[j], j, i, default_hotkey_label(j)) by {
                        assert(r.banks[i].pads[j] == renumbered(d.banks[i].pads[j], j, i));
                    }
                }
                r
            },
        }
    }
}

impl Default for Soundboard {
    fn default() -> (r: Self)
        ensures
            is_default_board(r),
    {
        Self::new_default()
    }
}


impl Clone for Soundboard {
    fn clone(&self) -> (r: Self)
        ensures
            r.banks.len() == self.banks.len(),
            forall|i: int| 0 <= i < self.banks.len() ==> (#[trigger] r.banks[i]).name == self.banks[i].name
                && r.banks[i].pads@ == self.banks[i].pads@,
    {
        let mut banks: Vec<Bank> = Vec::new();
        let mut i: usize = 0;
        while i < self.banks.len()
            invariant
                i <= self.banks.len(),
                banks.len() == i,
                forall|m: int| 0 <= m < i ==> (#[trigger] banks[m]).name == self.banks[m].name
                    && banks[m].pads@ == self.banks[m].pads@,
            decreases self.banks.len() - i,
        {
            banks.push(self.banks[i].clone());
            i = i + 1;
        }
        Soundboard { banks }
    }
}

/// Why an edit or a lookup of the soundboard failed.
#[derive(Debug, Clone, Copy, PartialEq, Eq, Structural)]
pub enum BoardError {
    /// There is no bank with this index.
    NoBank(usize),
    /// The bank has no pad in this slot.
    NoPad(usize),
    /// There is no pad in this (bank, slot).
    NoSuchPad(usize, usize),
}

/// `new` is `old` with bank `bank` changed to hold the pads `pads`; every
/// other bank and the bank's name are unchanged.
pub open spec fn bank_pads_set(old: Soundboard, new: Soundboard, bank: int, pads: Seq<Pad>) -> bool {
    &&& new.banks.len() == old.banks.len()
    &&& new.banks[bank].name == old.banks[bank].name
    &&& new.banks[bank].pads@ == pads
    &&& forall|i: int| 0 <= i < old.banks.len() && i != bank ==> #[trigger] new.banks[i] == old.banks[i]
}

/// `p` is the pad `old` with its sound removed: no name, no path, no
/// duration and no trim; everything else kept.
pub open spec fn is_cleared(old: Pad, p: Pad) -> bool {
    &&& p.path is None
    &&& p.name@ == Seq::<char>::empty()
    &&& p.duration_ms == 0
    &&& p.trim_start_ms == 0
    &&& p.trim_end_ms == 0
    &&& p.id == old.id
    &&& p.bank == old.bank
    &&& p.hotkey == old.hotkey
    &&& p.monitor_volume == old.monitor_volume
    &&& p.stream_volume == old.stream_volume
    &&& p.bass_boost == old.bass_boost
    &&& p.play_mode == old.play_mode
}

/// `p` is the pad `old` with a sound attached: the given name, path and
/// duration; everything else kept.
pub open spec fn is_imported(old: Pad, p: Pad, name: Seq<char>, path: PathBuf, duration_ms: u32) -> bool {
    &&& p.name@ == name
    &&& p.path == Some(path)
    &&& p.duration_ms == duration_ms
    &&& p.id == old.id
    &&& p.bank == old.bank
    &&& p.hotkey == old.hotkey
    &&& p.monitor_volume == old.monitor_volume
    &&& p.stream_volume == old.stream_volume
    &&& p.trim_start_ms == old.trim_start_ms
    &&& p.trim_end_ms == old.trim_end_ms
    &&& p.bass_boost == old.bass_boost
    &&& p.play_mode == old.play_mode
}

/// Whether a pad has something to play: a sound file or a known duration.
pub open spec fn has_sound(p: Pad) -> bool {
    !(p.path is None && p.duration_ms == 0)
}

impl Soundboard {
    /// The pad in `slot` of `bank`, if both exist.
    pub open spec fn pad_at(self, bank: int, slot: int) -> Option<Pad> {
        if 0 <= bank < self.banks.len() && 0 <= slot < self.banks[bank].pads.len() {
            Some(self.banks[bank].pads[slot])
        } else {
            None
        }
    }

    /// Replaces the pad in slot `pad.id` of `bank` with `pad`.
    pub fn update_pad(&mut self, bank: usize, pad: Pad) -> (r: Result<(), BoardError>)
        ensures
            bank >= old(self).banks.len() ==> r == Err::<(), BoardError>(BoardError::NoBank(bank))
                && *final(self) == *old(self),
            bank < old(self).banks.len() && pad.id >= old(self).banks[bank as int].pads.len()
                ==> r == Err::<(), BoardError>(BoardError::NoPad(pad.id)) && *final(self) == *old(self),
            bank < old(self).banks.len() && pad.id < old(self).banks[bank as int].pads.len() ==> r is Ok
                && bank_pads_set(*old(self), *final(self), bank as int,
                    old(self).banks[bank as int].pads@.update(pad.id as int, pad)),
    {
        if bank >= self.banks.len() {
            return Err(BoardError::NoBank(bank));
        }
        if pad.id >= self.banks[bank].pads.len() {
            return Err(BoardError::NoPad(pad.id));
        }
        let b = &mut self.banks[bank];
        let id = pad.id;
        b.pads.set(id, pad);
        Ok(())
    }

    /// Appends a fresh pad, without a hotkey, to `bank` and returns it.
    pub fn add_pad(&mut self, bank: usize) -> (r: Result<Pad, BoardError>)
        ensures
            bank >= old(self).banks.len() ==> r == Err::<Pad, BoardError>(BoardError::NoBank(bank))
                && *final(self) == *old(self),
            bank < old(self).banks.len() ==> (r matches Ok(p)
                && is_fresh_pad(p, old(self).banks[bank as int].pads.len() as int, bank as int, None)
                && bank_pads_set(*old(self), *final(self), bank as int, old(self).banks[bank as int].pads@.push(p))),
    {
        if bank >= self.banks.len() {
            return Err(BoardError::NoBank(bank));
        }
        let b = &mut self.banks[bank];
        let pad = fresh_pad(b.pads.len(), bank, None);
        b.pads.push(pad.clone());
        Ok(pad)
    }

    /// Removes the sound of the pad in `slot` of `bank`, keeping its
    /// hotkey, volumes and play mode.
    pub fn clear_pad(&mut self, bank: usize, slot: usize) -> (r: Result<(), BoardError>)
        ensures
            bank >= old(self).banks.len() ==> r == Err::<(), BoardError>(BoardError::NoBank(bank))
                && *final(self) == *old(self),
            bank < old(self).banks.len() && slot >= old(self).banks[bank as int].pads.len()
                ==> r == Err::<(), BoardError>(BoardError::NoPad(slot)) && *final(self) == *old(self),
            bank < old(self).banks.len() && slot < old(self).banks[bank as int].pads.len() ==> r is Ok
                && final(self).banks[bank as int].pads.len() == old(self).banks[bank as int].pads.len()
                && is_cleared(old(self).banks[bank as int].pads[slot as int], final(self).banks[bank as int].pads[slot as int])
                && bank_pads_set(*old(self), *final(self), bank as int,
                    old(self).banks[bank as int].pads@.update(slot as int, final(self).banks[bank as int].pads[slot as int])),
    {
        if bank >= self.banks.len() {
            return Err(BoardError::NoBank(bank));
        }
        if slot >= self.banks[bank].pads.len() {
            return Err(BoardError::NoPad(slot));
        }
        let b = &mut self.banks[bank];
        let mut pad = b.pads[slot].clone();
        pad.path = None;
        pad.name = String::new();
        pad.duration_ms = 0;
        pad.trim_start_ms = 0;
        pad.trim_end_ms = 0;
        b.pads.set(slot, pad);
        Ok(())
    }

    /// Attaches a decoded sound to the pad in `slot` of `bank` and returns
    /// the updated pad.
    pub fn import(&mut self, bank: usize, slot: usize, name: String, path: PathBuf, duration_ms: u32) -> (r: Result<Pad, BoardError>)
        ensures
            bank >= old(self).banks.len() ==> r == Err::<Pad, BoardError>(BoardError::NoBank(bank))
                && *final(self) == *old(self),
            bank < old(self).banks.len() && slot >= old(self).banks[bank as int].pads.len()
                ==> r == Err::<Pad, BoardError>(BoardError::NoPad(slot)) && *final(self) == *old(self),
            bank < old(self).banks.len() && slot < old(self).banks[bank as int].pads.len() ==> (r matches Ok(p)
                && is_imported(old(self).banks[bank as int].pads[slot as int], p, name@, path, duration_ms)
                && bank_pads_set(*old(self), *final(self), bank as int,
                    old(self).banks[bank as int].pads@.update(slot as int, p))),
    {
        if bank >= self.banks.len() {
            return Err(BoardError::NoBank(bank));
        }
        if slot >= self.banks[bank].pads.len() {
            return Err(BoardError::NoPad(slot));
        }
        let b = &mut self.banks[bank];
        let mut pad = b.pads[slot].clone();
        pad.name = name;
        pad.path = Some(path);
        pad.duration_ms = duration_ms;
        b.pads.set(slot, pad.clone());
        Ok(pad)
    }

    /// A copy of the pad in `slot` of `bank`.
    pub fn pad(&self, bank: usize, slot: usize) -> (r: Result<Pad, BoardError>)
        ensures
            match self.pad_at(bank as int, slot as int) {
                Some(p) => r == Ok::<Pad, BoardError>(p),
                None => r == Err::<Pad, BoardError>(BoardError::NoSuchPad(bank, slot)),
            },
    {
        if bank < self.banks.len() && slot < self.banks[bank].pads.len() {
            Ok(self.banks[bank].pads[slot].clone())
        } else {
            Err(BoardError::NoSuchPad(bank, slot))
        }
    }

    /// What pressing the pad in `slot` of `bank` plays: the pad when it has a
    /// sound or a duration, nothing when it is empty.
    pub fn play(&self, bank: usize, slot: usize) -> (r: Result<Option<Pad>, BoardError>)
        ensures
            match self.pad_at(bank as int, slot as int) {
                Some(p) => r == Ok::<Option<Pad>, BoardError>(if has_sound(p) { Some(p) } else { None }),
                None => r == Err::<Option<Pad>, BoardError>(BoardError::NoSuchPad(bank, slot)),
            },
    {
        let pad = self.pad(bank, slot)?;
        if pad.path.is_none() && pad.duration_ms == 0 {
            return Ok(None);
        }
        Ok(Some(pad))
    }
}

/// What the mixer plays of a pad's decoded sound.
#[derive(Debug, Clone, Copy, PartialEq, Eq, Structural)]
pub struct PlaybackPlan {
    /// The mixer identifier of the pad.
    pub pad_id: usize,
    /// First sample played.
    pub start: usize,
    /// One past the last sample played.
    pub end: usize,
    /// The whole sound is played, so it can be shared rather than copied.
    pub whole: bool,
    /// The sound repeats until it is stopped.
    pub looping: bool,
    /// The sound goes through the bass-boost shelf first.
    pub bass_boost: bool,
}

/// The sample at which a trim point in milliseconds falls.
pub open spec fn trim_sample(ms: u32) -> int {
    ms * (SAMPLE_RATE as int) / 1000
}

/// Whether a play mode repeats the sound: `loop` and `toggle` do.
pub open spec fn is_looping_mode(mode: Seq<char>) -> bool {
    mode == "loop"@ || mode == "toggle"@
}

/// The plan for playing pad `p` whose sound has `len` samples: the trim
/// start, capped at `len`; the trim end when set, kept between start and
/// `len`, else `len`.
pub open spec fn playback_plan(p: Pad, len: usize) -> PlaybackPlan {
    let start = if trim_sample(p.trim_start_ms) < len { trim_sample(p.trim_start_ms) } else { len as int };
    let end = if p.trim_end_ms > 0 {
        let e = trim_sample(p.trim_end_ms);
        if e < start { start } else if e > len { len as int } else { e }
    } else {
        len as int
    };
    PlaybackPlan {
        pad_id: spec_pad_id(p.bank, p.id) as usize,
        start: start as usize,
        end: end as usize,
        whole: start == 0 && end == len,
        looping: is_looping_mode(p.play_mode@),
        bass_boost: p.bass_boost,
    }
}

/// The sample at which a trim point falls, as a 64-bit count.
fn trim_to_sample(ms: u32) -> (r: u64)
    ensures
        r == trim_sample(ms),
{
    let wide: u64 = ms as u64;
    assert(wide * 48000 <= 0xFFFF_FFFFu64 * 48000) by (nonlinear_arith)
        requires wide <= 0xFFFF_FFFFu64;
    wide * (SAMPLE_RATE as u64) / 1000
}

/// Whether a play mode repeats the sound.
pub fn is_looping(mode: &String) -> (r: bool)
    ensures
        r == is_looping_mode(mode@),
{
    crate::text::is_text(mode, "loop") || crate::text::is_text(mode, "toggle")
}

/// Plans the playback of pad `pad` whose decoded sound has `len` samples.
pub fn plan_playback(pad: &Pad, len: usize) -> (r: PlaybackPlan)
    ensures
        r == playback_plan(*pad, len),
        r.start <= r.end <= len,
        r.whole <==> (r.start == 0 && r.end == len),
{
    let len64: u64 = len as u64;
    let s = trim_to_sample(pad.trim_start_ms);
    let start: usize = if s < len64 { s as usize } else { len };
    let end: usize = if pad.trim_end_ms > 0 {
        let e = trim_to_sample(pad.trim_end_ms);
        if e < start as u64 { start } else if e > len64 { len } else { e as usize }
    } else {
        len
    };
    PlaybackPlan {
        pad_id: pad_id(pad.bank, pad.id),
        start,
        end,
        whole: start == 0 && end == len,
        looping: is_looping(&pad.play_mode),
        bass_boost: pad.bass_boost,
    }
}


/// Whether a play mode is `toggle`: a second press stops the pad.
pub open spec fn is_toggle_mode(mode: Seq<char>) -> bool {
    mode == "toggle"@
}

/// Whether a play mode is `toggle`.
pub fn is_toggle(mode: &String) -> (r: bool)
    ensures
        r == is_toggle_mode(mode@),
{
    crate::text::is_text(mode, "toggle")
}

/// What a press of a pad does.
#[derive(Debug, Clone, Copy, PartialEq, Eq, Structural)]
pub enum PadPress {
    /// Start the pad's sound from its trim start.
    Start,
    /// Stop the pad's sound.
    Stop,
}

/// What pressing pad `id` does, where `on` holds the toggle pads that are
/// playing: a toggle pad that is playing stops, anything else starts.
pub open spec fn press_action(on: Set<usize>, id: usize, toggle: bool) -> PadPress {
    if toggle && on.contains(id) {
        PadPress::Stop
    } else {
        PadPress::Start
    }
}

/// The toggle pads playing after pad `id` is pressed: a toggle pad that
/// starts joins them; a pad that stops, or starts in another mode, leaves.
pub open spec fn after_press(on: Set<usize>, id: usize, toggle: bool) -> Set<usize> {
    if toggle && !on.contains(id) {
        on.insert(id)
    } else {
        on.remove(id)
    }
}

/// The mixer identifiers of the toggle pads that a press started and that
/// have not been stopped since.
pub struct ToggleLatch {
    on: Vec<usize>,
}

impl ToggleLatch {
    /// The toggle pads that are playing.
    pub closed spec fn view(&self) -> Set<usize> {
        self.on@.to_set()
    }

    /// No toggle pad is playing.
    pub fn new() -> (r: ToggleLatch)
        ensures
            r@ == Set::<usize>::empty(),
    {
        let r = ToggleLatch { on: Vec::new() };
        proof {
            assert(r.on@.to_set() =~= Set::<usize>::empty());
        }
        r
    }

    /// Whether toggle pad `id` is playing.
    pub fn contains(&self, id: usize) -> (r: bool)
        ensures
            r == self@.contains(id),
    {
        let mut i: usize = 0;
        while i < self.on.len()
            invariant
                i <= self.on.len(),
                forall|j: int| 0 <= j < i ==> self.on@[j] != id,
            decreases self.on.len() - i,
        {
            if self.on[i] == id {
                proof {
                    assert(self.on@.contains(id));
                }
                return true;
            }
            i = i + 1;
        }
        proof {
            assert(!self.on@.contains(id));
        }
        false
    }

    /// Forgets pad `id`, whose sound was stopped.
    pub fn release(&mut self, id: usize)
        ensures
            final(self)@ == old(self)@.remove(id),
    {
        let mut kept: Vec<usize> = Vec::new();
        let mut i: usize = 0;
        while i < self.on.len()
            invariant
                i <= self.on.len(),
                forall|j: int| 0 <= j < kept@.len() ==> #[trigger] kept@[j] != id && self.on@.contains(kept@[j]),
                forall|j: int| 0 <= j < i && #[trigger] self.on@[j] != id ==> kept@.contains(self.on@[j]),
            decreases self.on.len() - i,
        {
            let x = self.on[i];
            let ghost before = kept@;
            if x != id {
                kept.push(x);
                proof {
                    assert(self.on@.contains(x));
                    assert forall|j: int| 0 <= j < i + 1 && #[trigger] self.on@[j] != id implies kept@.contains(self.on@[j]) by {
                        if j < i {
                            let m = choose|m: int| 0 <= m < before.len() && before[m] == self.on@[j];
                            assert(kept@[m] == before[m]);
                        } else {
                            assert(kept@[kept@.len() - 1] == x);
                        }
                    }
                }
            }
            i = i + 1;
        }
        proof {
            assert forall|y: usize| #[trigger] kept@.contains(y) <==> (old(self).on@.contains(y) && y != id) by {
                if kept@.contains(y) {
                    let m = choose|m: int| 0 <= m < kept@.len() && kept@[m] == y;
                    assert(kept@[m] != id);
                }
                if old(self).on@.contains(y) && y != id {
                    let j = choose|j: int| 0 <= j < old(self).on@.len() && old(self).on@[j] == y;
                    assert(self.on@[j] != id);
                }
            }
        }
        self.on = kept;
        proof {
            assert(self@ =~= old(self)@.remove(id));
        }
    }

    /// Forgets every pad: every sound was stopped.
    pub fn clear(&mut self)
        ensures
            final(self)@ == Set::<usize>::empty(),
    {
        self.on = Vec::new();
        proof {
            assert(self.on@.to_set() =~= Set::<usize>::empty());
        }
    }

    /// Presses pad `id`, in toggle mode when `toggle` holds: a toggle pad
    /// that is playing is stopped, anything else is started.
    pub fn press(&mut self, id: usize, toggle: bool) -> (r: PadPress)
        ensures
            r == press_action(old(self)@, id, toggle),
            final(self)@ == after_press(old(self)@, id, toggle),
    {
        let playing = self.contains(id);
        if toggle && !playing {
            self.on.push(id);
            proof {
                assert(self@ =~= old(self)@.insert(id)) by {
                    assert forall|y: usize| #[trigger] self.on@.contains(y) <==> (old(self).on@.contains(y) || y == id) by {
                        if self.on@.contains(y) {
                            let j = choose|j: int| 0 <= j < self.on@.len() && self.on@[j] == y;
                            if j < old(self).on@.len() {
                                assert(old(self).on@[j] == y);
                            }
                        }
                        if old(self).on@.contains(y) {
                            let j = choose|j: int| 0 <= j < old(self).on@.len() && old(self).on@[j] == y;
                            assert(self.on@[j] == y);
                        }
                        if y == id {
                            assert(self.on@[self.on@.len() - 1] == y);
                        }
                    }
                }
            }
            PadPress::Start
        } else {
            self.release(id);
            if toggle {
                PadPress::Stop
            } else {
                PadPress::Start
            }
        }
    }
}

/// A toggle pad pressed twice plays and then stops, and is back where it
/// was before the first press.
pub proof fn law_toggle_second_press_stops(on: Set<usize>, id: usize)
    requires
        !on.contains(id),
    ensures
        press_action(on, id, true) == PadPress::Start,
        press_action(after_press(on, id, true), id, true) == PadPress::Stop,
        after_press(after_press(on, id, true), id, true) == on,
{
    assert(on.insert(id).remove(id) =~= on);
}

/// What a plan plays of a sound of `len` samples: a stretch `start..end`
/// inside the sound; the whole sound is shared exactly when that stretch is
/// all of it; an unset trim keeps the sound's start or end; a set trim
/// point falls on the sample its milliseconds reach (rounded down at the
/// graph's rate), unless it lies at or past the end of the sound; and the
/// trim end never falls before the trim start.
pub proof fn law_playback_plan_follows_trim(p: Pad, len: usize)
    ensures
        ({
            let r = playback_plan(p, len);
            &&& r.start <= r.end <= len
            &&& r.whole <==> (r.start == 0 && r.end == len)
            &&& p.trim_start_ms == 0 ==> r.start == 0
            &&& p.trim_end_ms == 0 ==> r.end == len
            &&& r.start < len ==> r.start * 1000 <= p.trim_start_ms * 48000 < r.start * 1000 + 1000
            &&& r.start == len ==> len * 1000 <= p.trim_start_ms * 48000
            &&& (p.trim_end_ms > 0 && r.start < r.end < len) ==> r.end * 1000 <= p.trim_end_ms * 48000 < r.end * 1000 + 1000
            &&& (p.trim_end_ms > 0 && r.start < r.end && r.end == len) ==> len * 1000 <= p.trim_end_ms * 48000
            &&& r.bass_boost == p.bass_boost
            &&& r.pad_id == spec_pad_id(p.bank, p.id)
        }),
{
    let r = playback_plan(p, len);
    let a = p.trim_start_ms as int * 48000;
    let b = p.trim_end_ms as int * 48000;
    assert(trim_sample(p.trim_start_ms) == a / 1000);
    assert(trim_sample(p.trim_end_ms) == b / 1000);
    assert((a / 1000) * 1000 <= a < (a / 1000) * 1000 + 1000) by (nonlinear_arith)
        requires a >= 0;
    assert((b / 1000) * 1000 <= b < (b / 1000) * 1000 + 1000) by (nonlinear_arith)
        requires b >= 0;
    assert(p.trim_start_ms == 0 ==> a == 0);
    assert(0 <= spec_pad_id(p.bank, p.id) <= usize::MAX);
}

/// Two pads of slots below `PAD_ID_STRIDE` get the same mixer identifier
/// only when they are the same pad, as long as no identifier saturates.
pub proof fn law_pad_id_distinct(b1: usize, s1: usize, b2: usize, s2: usize)
    requires
        s1 < PAD_ID_STRIDE,
        s2 < PAD_ID_STRIDE,
        b1 * PAD_ID_STRIDE + s1 <= usize::MAX,
        b2 * PAD_ID_STRIDE + s2 <= usize::MAX,
        spec_pad_id(b1, s1) == spec_pad_id(b2, s2),
    ensures
        b1 == b2,
        s1 == s2,
{
    assert(b1 * PAD_ID_STRIDE + s1 == b2 * PAD_ID_STRIDE + s2);
    vstd::arithmetic::div_mod::lemma_fundamental_div_mod_converse(
        b1 * PAD_ID_STRIDE + s1, PAD_ID_STRIDE as int, b1 as int, s1 as int);
    vstd::arithmetic::div_mod::lemma_fundamental_div_mod_converse(
        b2 * PAD_ID_STRIDE + s2, PAD_ID_STRIDE as int, b2 as int, s2 as int);
}

/// After fixing, every pad sits where its numbers say, and every bank has
/// at least `PADS_PER_BANK` pads.
pub proof fn law_fixed_positions(old: Soundboard, new: Soundboard)
    requires
        is_fixed_board(old, new),
    ensures
        forall|i: int, j: int| 0 <= i < new.banks.len() && 0 <= j < new.banks[i].pads.len() ==>
            (#[trigger] new.banks[i].pads[j]).bank == i && new.banks[i].pads[j].id == j,
        forall|i: int| 0 <= i < new.banks.len() ==> (#[trigger] new.banks[i]).pads.len() >= PADS_PER_BANK,
{
    assert forall|i: int, j: int| 0 <= i < new.banks.len() && 0 <= j < new.banks[i].pads.len() implies
        (#[trigger] new.banks[i].pads[j]).bank == i && new.banks[i].pads[j].id == j by {
        assert(is_fixed_bank(old.banks[i], new.banks[i], i));
        if j < old.banks[i].pads.len() {
            assert(new.banks[i].pads[j] == renumbered(old.banks[i].pads[j], j, i));
        } else {
            assert(is_fresh_pad(new.banks[i].pads[j], j, i, default_hotkey_label(j)));
        }
    }
    assert forall|i: int| 0 <= i < new.banks.len() implies (#[trigger] new.banks[i]).pads.len() >= PADS_PER_BANK by {
        assert(is_fixed_bank(old.banks[i], new.banks[i], i));
    }
}

/// Fixing a board that is already fixed changes nothing.
pub proof fn law_fix_idempotent(a: Soundboard, b: Soundboard, c: Soundboard)
    requires
        is_fixed_board(a, b),
        is_fixed_board(b, c),
    ensures
        c.banks.len() == b.banks.len(),
        forall|i: int| 0 <= i < c.banks.len() ==> (#[trigger] c.banks[i]).name == b.banks[i].name
            && c.banks[i].pads@ == b.banks[i].pads@,
{
    law_fixed_positions(a, b);
    assert forall|i: int| 0 <= i < c.banks.len() implies (#[trigger] c.banks[i]).name == b.banks[i].name
        && c.banks[i].pads@ == b.banks[i].pads@ by {
        assert(is_fixed_bank(b.banks[i], c.banks[i], i));
        assert(b.banks[i].pads.len() >= PADS_PER_BANK);
        assert forall|j: int| 0 <= j < c.banks[i].pads.len() implies c.banks[i].pads[j] == b.banks[i].pads[j] by {
            assert(c.banks[i].pads[j] == renumbered(b.banks[i].pads[j], j, i));
            assert(b.banks[i].pads[j].bank == i && b.banks[i].pads[j].id == j);
        }
        assert(c.banks[i].pads@ =~= b.banks[i].pads@);
    }
}

/// A pad written by `update_pad` is what a lookup of its bank and slot
/// then returns, and every other pad reads as before.
pub proof fn law_update_reads_back(old: Soundboard, new: Soundboard, bank: int, pad: Pad)
    requires
        0 <= bank < old.banks.len(),
        pad.id < old.banks[bank].pads.len(),
        bank_pads_set(old, new, bank, old.banks[bank].pads@.update(pad.id as int, pad)),
    ensures
        new.pad_at(bank, pad.id as int) == Some(pad),
        forall|b: int, s: int| !(b == bank && s == pad.id) ==> #[trigger] new.pad_at(b, s) == old.pad_at(b, s),
{
    assert forall|b: int, s: int| !(b == bank && s == pad.id) implies #[trigger] new.pad_at(b, s) == old.pad_at(b, s) by {
        if 0 <= b < old.banks.len() && b != bank {
            assert(new.banks[b] == old.banks[b]);
        }
    }
}


} // verus!
