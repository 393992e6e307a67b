//! The value behind a hexadecimal entry field: an unsigned integer of 1, 2, 4 or 8 bytes that
//! the user types in hexadecimal or steps up and down with the arrow keys, each repeated step
//! one larger than the last, up to a limit.

use vstd::prelude::*;
use vstd::string::*;

use crate::text::chars_of;

verus! {

/// The largest value of an unsigned integer of `bytes` bytes.
pub open spec fn max_value(bytes: u64) -> u64 {
    if bytes == 1 {
        0xff
    } else if bytes == 2 {
        0xffff
    } else if bytes == 4 {
        0xffff_ffff
    } else {
        0xffff_ffff_ffff_ffff
    }
}

/// A width that an entry can hold.
pub open spec fn is_width(bytes: u64) -> bool {
    bytes == 1 || bytes == 2 || bytes == 4 || bytes == 8
}

/// The largest step: a 32nd of the largest value, but at least 1.
pub open spec fn max_step_for(bytes: u64) -> u64 {
    if max_value(bytes) / 32 > 1 {
        (max_value(bytes) / 32) as u64
    } else {
        1
    }
}

/// The character of hexadecimal digit `d` (upper case).
pub open spec fn hex_digit(d: int) -> char {
    if d < 10 {
        (('0' as int) + d) as char
    } else {
        (('A' as int) + d - 10) as char
    }
}

/// The last `n` hexadecimal digits of `v`, most significant first.
pub open spec fn hex_digits(v: nat, n: nat) -> Seq<char>
    decreases n,
{
    if n == 0 {
        Seq::empty()
    } else {
        hex_digits(v / 16, (n - 1) as nat).push(hex_digit((v % 16) as int))
    }
}

/// The value of a hexadecimal digit character, if it is one.
pub open spec fn digit_value(c: char) -> Option<int> {
    if '0' <= c && c <= '9' {
        Some(c as int - '0' as int)
    } else if 'a' <= c && c <= 'f' {
        Some(c as int - 'a' as int + 10)
    } else if 'A' <= c && c <= 'F' {
        Some(c as int - 'A' as int + 10)
    } else {
        None
    }
}

/// Every character of `s` is a hexadecimal digit.
pub open spec fn all_hex_digits(s: Seq<char>) -> bool {
    forall|i: int| 0 <= i < s.len() ==> (#[trigger] digit_value(s[i])) is Some
}

/// The number that the hexadecimal digits `s` write.
pub open spec fn hex_value(s: Seq<char>) -> int
    decreases s.len(),
{
    if s.len() == 0 {
        0
    } else {
        hex_value(s.drop_last()) * 16 + digit_value(s.last())->0
    }
}

/// The text after the first `'x'` of `t`, or all of `t` when it has none.
pub open spec fn after_x(t: Seq<char>) -> Seq<char> {
    if exists|i: int| 0 <= i < t.len() && t[i] == 'x' {
        let i = choose|i: int|
            0 <= i < t.len() && t[i] == 'x' && forall|j: int| 0 <= j < i ==> t[j] != 'x';
        t.subrange(i + 1, t.len() as int)
    } else {
        t
    }
}

/// The number that `t` writes in hexadecimal, if it writes one no larger than `max`: the text
/// after its first `'x'` (or all of it), an optional `'+'`, then at least one hexadecimal
/// digit and nothing else.
pub open spec fn parse_hex(t: Seq<char>, max: int) -> Option<int> {
    let s = after_x(t);
    let d = if s.len() > 0 && s[0] == '+' {
        s.drop_first()
    } else {
        s
    };
    if d.len() > 0 && all_hex_digits(d) && hex_value(d) <= max {
        Some(hex_value(d))
    } else {
        None
    }
}

/// The single-character text of hexadecimal digit `d`.
fn hex_digit_str(d: u64) -> (r: &'static str)
    requires
        d < 16,
    ensures
        r@ == seq![hex_digit(d as int)],
{
    proof {
        reveal_strlit("0");
        reveal_strlit("1");
        reveal_strlit("2");
        reveal_strlit("3");
        reveal_strlit("4");
        reveal_strlit("5");
        reveal_strlit("6");
        reveal_strlit("7");
        reveal_strlit("8");
        reveal_strlit("9");
        reveal_strlit("A");
        reveal_strlit("B");
        reveal_strlit("C");
        reveal_strlit("D");
        reveal_strlit("E");
        reveal_strlit("F");
    }
    let r = if d == 0 {
        "0"
    } else if d == 1 {
        "1"
    } else if d == 2 {
        "2"
    } else if d == 3 {
        "3"
    } else if d == 4 {
        "4"
    } else if d == 5 {
        "5"
    } else if d == 6 {
        "6"
    } else if d == 7 {
        "7"
    } else if d == 8 {
        "8"
    } else if d == 9 {
        "9"
    } else if d == 10 {
        "A"
    } else if d == 11 {
        "B"
    } else if d == 12 {
        "C"
    } else if d == 13 {
        "D"
    } else if d == 14 {
        "E"
    } else {
        "F"
    };
    assert(r@ =~= seq![hex_digit(d as int)]);
    r
}

/// The hexadecimal value of a digit character, if it is one.
fn digit_value_exec(c: char) -> (r: Option<u64>)
    ensures
        match r {
            Some(v) => digit_value(c) == Some(v as int) && v < 16,
            None => digit_value(c) is None,
        },
{
    if '0' <= c && c <= '9' {
        Some((c as u64) - ('0' as u64))
    } else if 'a' <= c && c <= 'f' {
        Some((c as u64) - ('a' as u64) + 10)
    } else if 'A' <= c && c <= 'F' {
        Some((c as u64) - ('A' as u64) + 10)
    } else {
        None
    }
}

/// The key presses that a hexadecimal entry tells apart.
#[derive(Debug, PartialEq, Eq, Structural, Clone, Copy)]
pub enum HexKey {
    Return,
    Tab,
    IsoLeftTab,
    Up,
    Down,
    /// A key that edits the text: a hexadecimal digit, `x`, backspace, delete, copy, paste,
    /// left or right.
    Editing,
    Other,
}

/// What the entry does with a key press.
#[derive(Debug, PartialEq, Eq, Structural, Clone, Copy)]
pub struct KeyOutcome {
    /// The key press goes no further.
    pub stop: bool,
    /// A value was set (read from the text or stepped to): the text is written afresh from it
    /// and those who watch the value are told.
    pub value_changed: bool,
    /// The value stays as it was and the text is written afresh from it.
    pub reset_text: bool,
}

/// The value of a hexadecimal entry, with its stepping state.
#[derive(Debug)]
pub struct HexEntry {
    bytes: u64,
    value: u64,
    current_step: u64,
    max_step: u64,
}

impl HexEntry {
    #[verifier::type_invariant]
    spec fn is_well_formed(&self) -> bool {
        &&& is_width(self.bytes)
        &&& self.value <= max_value(self.bytes)
        &&& 1 <= self.current_step <= self.max_step
        &&& self.max_step == max_step_for(self.bytes)
    }

    pub closed spec fn spec_bytes(&self) -> u64 {
        self.bytes
    }

    pub closed spec fn spec_value(&self) -> u64 {
        self.value
    }

    pub closed spec fn spec_current_step(&self) -> u64 {
        self.current_step
    }

    pub closed spec fn spec_max_step(&self) -> u64 {
        self.max_step
    }

    /// The amount the up arrow adds: the current step, or what is left below the largest value.
    pub open spec fn spec_incr(&self) -> int {
        let room = max_value(self.spec_bytes()) - self.spec_value();
        if room < self.spec_current_step() {
            room
        } else {
            self.spec_current_step() as int
        }
    }

    /// The amount the down arrow takes away: the current step, or what is left above zero.
    pub open spec fn spec_decr(&self) -> int {
        if self.spec_value() < self.spec_current_step() {
            self.spec_value() as int
        } else {
            self.spec_current_step() as int
        }
    }

    /// The step after a bump: one larger, up to the largest step.
    pub open spec fn spec_bumped_step(&self) -> int {
        if self.spec_current_step() + 1 < self.spec_max_step() {
            self.spec_current_step() + 1
        } else {
            self.spec_max_step() as int
        }
    }

    /// The step after the up arrow: bumped unless the value has reached the largest.
    pub open spec fn spec_step_after_incr(&self) -> int {
        if self.spec_value() + self.spec_incr() < max_value(self.spec_bytes()) {
            self.spec_bumped_step()
        } else {
            self.spec_current_step() as int
        }
    }

    /// The step after the down arrow: bumped unless the value has reached zero.
    pub open spec fn spec_step_after_decr(&self) -> int {
        if self.spec_value() - self.spec_decr() > 0 {
            self.spec_bumped_step()
        } else {
            self.spec_current_step() as int
        }
    }

    /// The entry's text for its value: `"0x"` and the value in upper-case hexadecimal, padded
    /// with zeros to two digits per byte.
    pub open spec fn spec_text(&self) -> Seq<char> {
        "0x"@ + hex_digits(self.spec_value() as nat, (2 * self.spec_bytes()) as nat)
    }

    /// A new entry of `bytes` bytes holding `initial_value`, stepping by one.
    pub fn new(bytes: u64, initial_value: u64) -> (r: HexEntry)
        requires
            is_width(bytes),
            initial_value <= max_value(bytes),
        ensures
            r.spec_bytes() == bytes,
            r.spec_value() == initial_value,
            r.spec_current_step() == 1,
            r.spec_max_step() == max_step_for(bytes),
    {
        let max = max_value_exec(bytes);
        let max_step = if max / 32 > 1 {
            max / 32
        } else {
            1
        };
        HexEntry { bytes, value: initial_value, current_step: 1, max_step }
    }

    pub fn value(&self) -> (r: u64)
        ensures
            r == self.spec_value(),
            r <= max_value(self.spec_bytes()),
    {
        proof {
            use_type_invariant(self);
        }
        self.value
    }

    /// The number of bytes of the entry's values.
    pub fn bytes(&self) -> (r: u64)
        ensures
            r == self.spec_bytes(),
            is_width(r),
    {
        proof {
            use_type_invariant(self);
        }
        self.bytes
    }

    /// The largest value the entry can hold.
    pub fn max_value(&self) -> (r: u64)
        ensures
            r == max_value(self.spec_bytes()),
    {
        proof {
            use_type_invariant(self);
        }
        max_value_exec(self.bytes)
    }

    pub fn set_value(&mut self, value: u64)
        requires
            value <= max_value(old(self).spec_bytes()),
        ensures
            final(self).spec_value() == value,
            final(self).spec_bytes() == old(self).spec_bytes(),
            final(self).spec_current_step() == old(self).spec_current_step(),
            final(self).spec_max_step() == old(self).spec_max_step(),
    {
        proof {
            use_type_invariant(&*self);
        }
        self.value = value;
    }

    /// One larger step next time, up to the largest step.
    pub fn bump_current_step(&mut self)
        ensures
            final(self).spec_current_step() == old(self).spec_bumped_step(),
            final(self).spec_value() == old(self).spec_value(),
            final(self).spec_bytes() == old(self).spec_bytes(),
            final(self).spec_max_step() == old(self).spec_max_step(),
    {
        proof {
            use_type_invariant(&*self);
        }
        let next = self.current_step + 1;
        self.current_step = if next < self.max_step {
            next
        } else {
            self.max_step
        };
    }

    /// Steps by one again.
    pub fn reset_current_step(&mut self)
        ensures
            final(self).spec_current_step() == 1,
            final(self).spec_value() == old(self).spec_value(),
            final(self).spec_bytes() == old(self).spec_bytes(),
            final(self).spec_max_step() == old(self).spec_max_step(),
    {
        proof {
            use_type_invariant(&*self);
        }
        self.current_step = 1;
    }

    /// Steps the value up by the current step, stopping at the largest value; the step then
    /// grows unless the value is at the largest. Returns whether the value changed.
    pub fn incr_value(&mut self) -> (changed: bool)
        ensures
            final(self).spec_value() == old(self).spec_value() + old(self).spec_incr(),
            final(self).spec_current_step() == old(self).spec_step_after_incr(),
            changed == (old(self).spec_incr() > 0),
            final(self).spec_value() == old(self).spec_value() + (if max_value(
                old(self).spec_bytes(),
            ) - old(self).spec_value() < old(self).spec_current_step() {
                max_value(old(self).spec_bytes()) - old(self).spec_value()
            } else {
                old(self).spec_current_step() as int
            }),
            final(self).spec_current_step() == if final(self).spec_value() < max_value(
                old(self).spec_bytes(),
            ) {
                if old(self).spec_current_step() + 1 < old(self).spec_max_step() {
                    old(self).spec_current_step() + 1
                } else {
                    old(self).spec_max_step() as int
                }
            } else {
                old(self).spec_current_step() as int
            },
            final(self).spec_bytes() == old(self).spec_bytes(),
            final(self).spec_max_step() == old(self).spec_max_step(),
    {
        proof {
            use_type_invariant(&*self);
        }
        let max = max_value_exec(self.bytes);
        let room = max - self.value;
        let incr = if room < self.current_step {
            room
        } else {
            self.current_step
        };
        if incr > 0 {
            self.set_value(self.value + incr);
        }
        if self.value() < max {
            self.bump_current_step();
        }
        incr > 0
    }

    /// Steps the value down by the current step, stopping at zero; the step then grows unless
    /// the value is zero. Returns whether the value changed.
    pub fn decr_value(&mut self) -> (changed: bool)
        ensures
            final(self).spec_value() == old(self).spec_value() - old(self).spec_decr(),
            final(self).spec_current_step() == old(self).spec_step_after_decr(),
            changed == (old(self).spec_decr() > 0),
            final(self).spec_value() == old(self).spec_value() - (if old(self).spec_value()
                < old(self).spec_current_step() {
                old(self).spec_value() as int
            } else {
                old(self).spec_current_step() as int
            }),
            final(self).spec_current_step() == if final(self).spec_value() > 0 {
                if old(self).spec_current_step() + 1 < old(self).spec_max_step() {
                    old(self).spec_current_step() + 1
                } else {
                    old(self).spec_max_step() as int
                }
            } else {
                old(self).spec_current_step() as int
            },
            final(self).spec_bytes() == old(self).spec_bytes(),
            final(self).spec_max_step() == old(self).spec_max_step(),
    {
        proof {
            use_type_invariant(&*self);
        }
        let decr = if self.value < self.current_step {
            self.value
        } else {
            self.current_step
        };
        if decr > 0 {
            self.set_value(self.value - decr);
        }
        if self.value() > 0 {
            self.bump_current_step();
        }
        decr > 0
    }

    /// The entry's text for its value.
    pub fn entry_text(&self) -> (r: String)
        ensures
            r@ == self.spec_text(),
    {
        proof {
            use_type_invariant(self);
        }
        let n = 2 * self.bytes;
        let mut digits: Vec<u64> = Vec::new();
        let mut w = self.value;
        let mut j: u64 = 0;
        while j < n
            invariant
                n == 2 * self.spec_bytes(),
                n <= 16,
                j <= n,
                digits@.len() == j,
                forall|i: int| 0 <= i < j ==> #[trigger] digits@[i] < 16,
                hex_digits(self.spec_value() as nat, n as nat) == hex_digits(w as nat, (n - j) as nat)
                    + Seq::new(j as nat, |i: int| hex_digit(digits@[j - 1 - i] as int)),
            decreases n - j,
        {
            let ghost before = digits@;
            let ghost w0 = w;
            proof {
                assert(hex_digits(w0 as nat, (n - j) as nat) == hex_digits(
                    (w0 / 16) as nat,
                    (n - j - 1) as nat,
                ).push(hex_digit((w0 % 16) as int)));
            }
            digits.push(w % 16);
            w = w / 16;
            proof {
                assert(Seq::new((j + 1) as nat, |i: int| hex_digit(digits@[j - i] as int)) =~= seq![
                    hex_digit((w0 % 16) as int),
                ] + Seq::new(j as nat, |i: int| hex_digit(before[j - 1 - i] as int)));
                assert(hex_digits((w0 / 16) as nat, (n - j - 1) as nat).push(
                    hex_digit((w0 % 16) as int),
                ) + Seq::new(j as nat, |i: int| hex_digit(before[j - 1 - i] as int)) =~= hex_digits(
                    (w0 / 16) as nat,
                    (n - j - 1) as nat,
                ) + (seq![hex_digit((w0 % 16) as int)] + Seq::new(
                    j as nat,
                    |i: int| hex_digit(before[j - 1 - i] as int),
                )));
            }
            j += 1;
        }
        proof {
            reveal_strlit("0x");
        }
        let mut text = "0x".to_owned();
        let mut k: usize = digits.len();
        let ghost all = Seq::new(n as nat, |i: int| hex_digit(digits@[n - 1 - i] as int));
        assert(hex_digits(w as nat, 0) =~= Seq::<char>::empty());
        while k > 0
            invariant
                k <= digits@.len(),
                digits@.len() == n,
                forall|i: int| 0 <= i < n ==> #[trigger] digits@[i] < 16,
                all == Seq::new(n as nat, |i: int| hex_digit(digits@[n - 1 - i] as int)),
                text@ == "0x"@ + all.subrange(0, n - k),
            decreases k,
        {
            k -= 1;
            let d = hex_digit_str(digits[k]);
            let ghost before = text@;
            text.append(d);
            assert(all.subrange(0, n - k) =~= all.subrange(0, n - k - 1).push(
                hex_digit(digits@[k as int] as int),
            ));
            assert(text@ =~= "0x"@ + all.subrange(0, n - k));
        }
        assert(all.subrange(0, n as int) =~= all);
        assert(hex_digits(self.spec_value() as nat, n as nat) =~= all);
        text
    }

    /// Reads the value from the text typed into the entry: the text after its first `'x'`
    /// (or all of it), in hexadecimal. Returns whether it was read; when it was not, the value
    /// is unchanged (and the text is to be written afresh).
    pub fn set_value_from_text(&mut self, text: &str) -> (r: bool)
        ensures
            match parse_hex(text@, max_value(old(self).spec_bytes()) as int) {
                Some(v) => r && final(self).spec_value() == v,
                None => !r && final(self).spec_value() == old(self).spec_value(),
            },
            final(self).spec_bytes() == old(self).spec_bytes(),
            final(self).spec_current_step() == old(self).spec_current_step(),
            final(self).spec_max_step() == old(self).spec_max_step(),
    {
        proof {
            use_type_invariant(&*self);
        }
        let max = max_value_exec(self.bytes);
        match read_hex(text, max) {
            Some(v) => {
                self.set_value(v);
                true
            },
            None => false,
        }
    }

    /// What the entry does with a key press, given the entry's text.
    pub fn key_pressed(&mut self, key: HexKey, text: &str) -> (r: KeyOutcome)
        ensures
            final(self).spec_bytes() == old(self).spec_bytes(),
            final(self).spec_max_step() == old(self).spec_max_step(),
            match key {
                HexKey::Return | HexKey::Tab | HexKey::IsoLeftTab => {
                    &&& r.stop == (key == HexKey::Return)
                    &&& final(self).spec_current_step() == old(self).spec_current_step()
                    &&& if text@.len() == 0 {
                        &&& !r.value_changed
                        &&& r.reset_text
                        &&& final(self).spec_value() == old(self).spec_value()
                    } else {
                        match parse_hex(text@, max_value(old(self).spec_bytes()) as int) {
                            Some(v) => {
                                &&& r.value_changed
                                &&& !r.reset_text
                                &&& final(self).spec_value() == v
                            },
                            None => {
                                &&& !r.value_changed
                                &&& r.reset_text
                                &&& final(self).spec_value() == old(self).spec_value()
                            },
                        }
                    }
                },
                HexKey::Up => {
                    &&& r.stop
                    &&& !r.reset_text
                    &&& r.value_changed == (old(self).spec_incr() > 0)
                    &&& final(self).spec_value() == old(self).spec_value() + old(self).spec_incr()
                    &&& final(self).spec_current_step() == old(self).spec_step_after_incr()
                },
                HexKey::Down => {
                    &&& r.stop
                    &&& !r.reset_text
                    &&& r.value_changed == (old(self).spec_decr() > 0)
                    &&& final(self).spec_value() == old(self).spec_value() - old(self).spec_decr()
                    &&& final(self).spec_current_step() == old(self).spec_step_after_decr()
                },
                HexKey::Editing => {
                    &&& !r.stop
                    &&& !r.value_changed
                    &&& !r.reset_text
                    &&& final(self).spec_value() == old(self).spec_value()
                    &&& final(self).spec_current_step() == old(self).spec_current_step()
                },
                HexKey::Other => {
                    &&& r.stop
                    &&& !r.value_changed
                    &&& !r.reset_text
                    &&& final(self).spec_value() == old(self).spec_value()
                    &&& final(self).spec_current_step() == old(self).spec_current_step()
                },
            },
    {
        match key {
            HexKey::Return | HexKey::Tab | HexKey::IsoLeftTab => {
                let stop = match key {
                    HexKey::Return => true,
                    _ => false,
                };
                if text.unicode_len() == 0 {
                    KeyOutcome { stop, value_changed: false, reset_text: true }
                } else {
                    let read = self.set_value_from_text(text);
                    KeyOutcome { stop, value_changed: read, reset_text: !read }
                }
            },
            HexKey::Up => {
                let changed = self.incr_value();
                KeyOutcome { stop: true, value_changed: changed, reset_text: false }
            },
            HexKey::Down => {
                let changed = self.decr_value();
                KeyOutcome { stop: true, value_changed: changed, reset_text: false }
            },
            HexKey::Editing => KeyOutcome { stop: false, value_changed: false, reset_text: false },
            HexKey::Other => KeyOutcome { stop: true, value_changed: false, reset_text: false },
        }
    }

    /// Whether releasing `key` writes the text afresh from the value: it does after the
    /// arrow keys.
    pub fn key_released(&self, key: HexKey) -> (r: bool)
        ensures
            r == (key == HexKey::Up || key == HexKey::Down),
    {
        match key {
            HexKey::Up | HexKey::Down => true,
            _ => false,
        }
    }
}

/// Gathers the settings of a hexadecimal entry and builds its value.
#[derive(Debug, Clone, Copy)]
pub struct HexEntryBuilder {
    pub bytes: u64,
    pub initial_value: u64,
    pub editable: bool,
}

impl HexEntryBuilder {
    /// Settings for an entry of `bytes` bytes, starting at zero, not editable.
    pub fn new(bytes: u64) -> (r: Self)
        ensures
            r == (HexEntryBuilder { bytes, initial_value: 0, editable: false }),
    {
        HexEntryBuilder { bytes, initial_value: 0, editable: false }
    }

    pub fn editable(&mut self, editable: bool) -> (r: &mut Self)
        ensures
            *r == (HexEntryBuilder { editable, ..*old(self) }),
            *final(self) == *final(r),
    {
        self.editable = editable;
        self
    }

    pub fn initial_value(&mut self, initial_value: u64) -> (r: &mut Self)
        ensures
            *r == (HexEntryBuilder { initial_value, ..*old(self) }),
            *final(self) == *final(r),
    {
        self.initial_value = initial_value;
        self
    }

    /// The width of the entry's text in characters: `"0x"` and two digits per byte.
    pub fn width_chars(&self) -> (r: u64)
        requires
            is_width(self.bytes),
        ensures
            r == 2 * self.bytes + 2,
    {
        self.bytes * 2 + 2
    }

    /// The entry's value, starting at the initial value and stepping by one.
    pub fn build(&self) -> (r: HexEntry)
        requires
            is_width(self.bytes),
            self.initial_value <= max_value(self.bytes),
        ensures
            r.spec_bytes() == self.bytes,
            r.spec_value() == self.initial_value,
            r.spec_current_step() == 1,
            r.spec_max_step() == max_step_for(self.bytes),
    {
        HexEntry::new(self.bytes, self.initial_value)
    }
}

fn max_value_exec(bytes: u64) -> (r: u64)
    ensures
        r == max_value(bytes),
{
    if bytes == 1 {
        0xff
    } else if bytes == 2 {
        0xffff
    } else if bytes == 4 {
        0xffff_ffff
    } else {
        0xffff_ffff_ffff_ffff
    }
}

/// The number that `text` writes in hexadecimal, if it writes one no larger than `max`.
pub fn read_hex(text: &str, max: u64) -> (r: Option<u64>)
    ensures
        match r {
            Some(v) => parse_hex(text@, max as int) == Some(v as int),
            None => parse_hex(text@, max as int) is None,
        },
{
    let chars = chars_of(text);
    let n = chars.len();
    let mut start: usize = 0;
    while start < n && chars[start] != 'x'
        invariant
            n == chars@.len(),
            chars@ == text@,
            start <= n,
            forall|j: int| 0 <= j < start ==> chars@[j] != 'x',
        decreases n - start,
    {
        start += 1;
    }
    let found = start < n;
    let ghost t = text@;
    let from = if found {
        start + 1
    } else {
        0
    };
    proof {
        if found {
            assert(exists|i: int| 0 <= i < t.len() && t[i] == 'x');
            let i = choose|i: int|
                0 <= i < t.len() && t[i] == 'x' && forall|j: int| 0 <= j < i ==> t[j] != 'x';
            assert(i == start) by {
                if i < start {
                } else if i > start {
                }
            }
            assert(after_x(t) =~= t.subrange(start + 1, t.len() as int));
        } else {
            assert(!exists|i: int| 0 <= i < t.len() && t[i] == 'x') by {
                if exists|i: int| 0 <= i < t.len() && t[i] == 'x' {
                    let i = choose|i: int| 0 <= i < t.len() && t[i] == 'x';
                    assert(chars@[i] != 'x');
                }
            }
            assert(after_x(t) =~= t);
        }
        assert(after_x(t) =~= t.subrange(from as int, n as int));
    }
    let ghost s = after_x(t);
    let mut i = from;
    if i < n && chars[i] == '+' {
        i += 1;
    }
    let ghost d = t.subrange(i as int, n as int);
    assert(d =~= if s.len() > 0 && s[0] == '+' {
        s.drop_first()
    } else {
        s
    });
    if i >= n {
        return None;
    }
    let first = i;
    let mut acc: u64 = 0;
    assert(parse_hex(t, max as int) == if d.len() > 0 && all_hex_digits(d) && hex_value(d) <= max {
        Some(hex_value(d))
    } else {
        None
    });
    assert(t.subrange(first as int, first as int) =~= Seq::<char>::empty());
    while i < n
        invariant
            parse_hex(t, max as int) == if d.len() > 0 && all_hex_digits(d) && hex_value(d)
                <= max {
                Some(hex_value(d))
            } else {
                None
            },
            n == chars@.len(),
            chars@ == t,
            t == text@,
            first <= i <= n,
            first < n,
            d == t.subrange(first as int, n as int),
            all_hex_digits(t.subrange(first as int, i as int)),
            acc == hex_value(t.subrange(first as int, i as int)),
            acc <= max,
        decreases n - i,
    {
        let ghost prefix = t.subrange(first as int, i as int);
        assert(t.subrange(first as int, i + 1).drop_last() =~= prefix);
        match digit_value_exec(chars[i]) {
            Some(v) => {
                if v > max || acc > (max - v) / 16 {
                    proof {
                        if v <= max {
                            assert(acc * 16 + v > max) by (nonlinear_arith)
                                requires
                                    acc > (max - v) / 16,
                                    v <= max,
                            ;
                        }
                        lemma_hex_value_nonneg(prefix);
                        let m = (i - first) as int + 1;
                        assert(t.subrange(first as int, i + 1) =~= d.take(m));
                        assert(hex_value(d.take(m)) == acc * 16 + v);
                        if all_hex_digits(d) {
                            lemma_hex_value_monotone(d, m);
                        }
                        assert(parse_hex(t, max as int) is None);
                    }
                    return None;
                }
                assert(acc * 16 + v <= max) by (nonlinear_arith)
                    requires
                        acc <= (max - v) / 16,
                        v < 16,
                        v <= max,
                ;
                acc = acc * 16 + v;
                i += 1;
            },
            None => {
                proof {
                    assert(!all_hex_digits(d)) by {
                        assert(d[(i - first) as int] == chars@[i as int]);
                        assert(digit_value(d[(i - first) as int]) is None);
                    }
                    assert(parse_hex(t, max as int) is None);
                }
                return None;
            },
        }
    }
    assert(t.subrange(first as int, n as int) =~= d);
    Some(acc)
}

proof fn lemma_hex_value_nonneg(s: Seq<char>)
    requires
        all_hex_digits(s),
    ensures
        hex_value(s) >= 0,
    decreases s.len(),
{
    if s.len() > 0 {
        assert(all_hex_digits(s.drop_last())) by {
            assert forall|i: int| 0 <= i < s.drop_last().len() implies (#[trigger] digit_value(
                s.drop_last()[i],
            )) is Some by {
                assert(s.drop_last()[i] == s[i]);
            }
        }
        lemma_hex_value_nonneg(s.drop_last());
        assert(digit_value(s[s.len() - 1]) is Some);
    }
}

/// A longer run of hexadecimal digits writes a number at least as large as any of its
/// prefixes.
proof fn lemma_hex_value_monotone(s: Seq<char>, k: int)
    requires
        all_hex_digits(s),
        0 <= k <= s.len(),
    ensures
        hex_value(s.take(k)) <= hex_value(s),
    decreases s.len(),
{
    if k == s.len() {
        assert(s.take(k) =~= s);
    } else {
        let t = s.drop_last();
        assert(all_hex_digits(t)) by {
            assert forall|i: int| 0 <= i < t.len() implies (#[trigger] digit_value(t[i])) is Some by {
                assert(t[i] == s[i]);
            }
        }
        lemma_hex_value_monotone(t, k);
        assert(t.take(k) =~= s.take(k));
        lemma_hex_value_nonneg(t);
        assert(digit_value(s[s.len() - 1]) is Some);
    }
}

/// `16` to the power `n`.
pub open spec fn pow16(n: nat) -> int
    decreases n,
{
    if n == 0 {
        1
    } else {
        16 * pow16((n - 1) as nat)
    }
}

proof fn lemma_pow16_positive(n: nat)
    ensures
        pow16(n) > 0,
    decreases n,
{
    if n > 0 {
        lemma_pow16_positive((n - 1) as nat);
    }
}

proof fn lemma_digit_roundtrip(d: int)
    requires
        0 <= d < 16,
    ensures
        digit_value(hex_digit(d)) == Some(d),
        hex_digit(d) != 'x',
        hex_digit(d) != '+',
{
}

/// The last `n` hexadecimal digits of `v` are digits, and write `v` modulo `16^n`.
proof fn lemma_hex_digits_value(v: nat, n: nat)
    ensures
        hex_digits(v, n).len() == n,
        all_hex_digits(hex_digits(v, n)),
        forall|i: int| 0 <= i < n ==> #[trigger] hex_digits(v, n)[i] != 'x' && hex_digits(v, n)[i]
            != '+',
        hex_value(hex_digits(v, n)) == (v as int) % pow16(n),
    decreases n,
{
    lemma_pow16_positive(n);
    if n > 0 {
        let m = (n - 1) as nat;
        lemma_hex_digits_value(v / 16, m);
        let s = hex_digits(v, n);
        let t = hex_digits(v / 16, m);
        let d = (v % 16) as int;
        lemma_digit_roundtrip(d);
        assert(s == t.push(hex_digit(d)));
        assert(s.drop_last() =~= t);
        assert forall|i: int| 0 <= i < s.len() implies (#[trigger] digit_value(s[i])) is Some by {
            if i < m {
                assert(s[i] == t[i]);
            }
        }
        assert forall|i: int| 0 <= i < n implies #[trigger] s[i] != 'x' && s[i] != '+' by {
            if i < m {
                assert(s[i] == t[i]);
            }
        }
        lemma_pow16_positive(m);
        vstd::arithmetic::div_mod::lemma_mod_breakdown(v as int, 16, pow16(m));
        assert(hex_value(s) == hex_value(t) * 16 + d);
    }
}

/// The text an entry shows reads back as the entry's value: for every width and every value
/// of that width, reading `"0x"` followed by the value's digits gives the value.
pub proof fn law_text_reads_back(bytes: u64, v: u64)
    requires
        is_width(bytes),
        v <= max_value(bytes),
    ensures
        parse_hex("0x"@ + hex_digits(v as nat, (2 * bytes) as nat), max_value(bytes) as int) == Some(
            v as int,
        ),
{
    let n = (2 * bytes) as nat;
    let digits = hex_digits(v as nat, n);
    lemma_hex_digits_value(v as nat, n);
    reveal_strlit("0x");
    let t = "0x"@ + digits;
    assert(t[0] == '0');
    assert(t[1] == 'x');
    let i = choose|i: int| 0 <= i < t.len() && t[i] == 'x' && forall|j: int| 0 <= j < i ==> t[j] != 'x';
    assert(i == 1) by {
        if i > 1 {
            assert(t[1] == 'x');
        }
        if i == 0 {
            assert(t[0] == '0');
        }
        if i >= 2 {
            assert(t[i] == digits[i - 2]);
        }
    }
    assert(t.subrange(2, t.len() as int) =~= digits);
    assert(after_x(t) == digits);
    assert(digits[0] != '+');
    assert(pow16(n) > max_value(bytes)) by {
        reveal_with_fuel(pow16, 17);
    }
    vstd::arithmetic::div_mod::lemma_small_mod(v as nat, pow16(n) as nat);
    assert(hex_value(digits) == v);
    assert(digits.len() > 0);
}

/// The arrow keys step the value by the current step, stopping at the ends, and each press
/// that leaves the value short of the end it moves towards makes the next step one larger,
/// up to the largest step: with value `v`, step `c`, largest step `m` and largest value `x`,
/// Down leaves `v - min(v, c)` and then step `min(c + 1, m)` if that is above zero (else `c`);
/// Up leaves `v + min(x - v, c)` and then step `min(c + 1, m)` if that is below `x` (else `c`).
pub proof fn law_arrow_steps(e: HexEntry)
    ensures
        ({
            let v = e.spec_value() as int;
            let c = e.spec_current_step() as int;
            let m = e.spec_max_step() as int;
            let x = max_value(e.spec_bytes()) as int;
            let grown = if c + 1 < m {
                c + 1
            } else {
                m
            };
            let down = v - (if v < c {
                v
            } else {
                c
            });
            let up = v + (if x - v < c {
                x - v
            } else {
                c
            });
            &&& v - e.spec_decr() == down
            &&& e.spec_step_after_decr() == (if down > 0 {
                grown
            } else {
                c
            })
            &&& v + e.spec_incr() == up
            &&& e.spec_step_after_incr() == (if up < x {
                grown
            } else {
                c
            })
        }),
{
}

} // verus!
