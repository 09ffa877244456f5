use vstd::prelude::*;
use crate::model::FLEET_SIZE;

verus! {

/// Separates the two words of a line.
pub const WORD_SEP: u8 = 45;
/// Separates the fields of a word.
pub const FIELD_SEP: u8 = 59;
pub const CR: u8 = 13;
pub const LF: u8 = 10;
pub const PLUS: u8 = 43;
pub const ZERO: u8 = 48;
pub const NINE: u8 = 57;

/// `s` cut at every `sep`; there is always at least one piece.
pub open spec fn split_spec(s: Seq<u8>, sep: u8) -> Seq<Seq<u8>>
    decreases s.len(),
{
    if s.len() == 0 {
        seq![Seq::empty()]
    } else {
        let prev = split_spec(s.drop_last(), sep);
        if s.last() == sep {
            prev.push(Seq::empty())
        } else {
            prev.update(prev.len() - 1, prev.last().push(s.last()))
        }
    }
}

pub proof fn lemma_split_nonempty(s: Seq<u8>, sep: u8)
    ensures
        split_spec(s, sep).len() >= 1,
    decreases s.len(),
{
    if s.len() > 0 {
        lemma_split_nonempty(s.drop_last(), sep);
    }
}

pub open spec fn is_digit(b: u8) -> bool {
    ZERO <= b <= NINE
}

pub open spec fn all_digits(s: Seq<u8>) -> bool {
    forall|i: int| 0 <= i < s.len() ==> is_digit(#[trigger] s[i])
}

/// The number that a run of decimal digits spells.
pub open spec fn digits_value(s: Seq<u8>) -> nat
    decreases s.len(),
{
    if s.len() == 0 {
        0
    } else {
        digits_value(s.drop_last()) * 10 + (s.last() - ZERO) as nat
    }
}

/// A field without its one optional leading `+`.
pub open spec fn unsigned_part(s: Seq<u8>) -> Seq<u8> {
    if s.len() > 0 && s[0] == PLUS {
        s.drop_first()
    } else {
        s
    }
}

/// A field read as an unsigned byte: an optional `+`, then at least one
/// decimal digit, with a value of at most 255.
pub open spec fn parse_u8_spec(s: Seq<u8>) -> Option<u8> {
    let d = unsigned_part(s);
    if d.len() > 0 && all_digits(d) && digits_value(d) <= 255 {
        Some(digits_value(d) as u8)
    } else {
        None
    }
}

proof fn lemma_prefix_value_le(d: Seq<u8>, k: int)
    requires
        0 <= k <= d.len(),
        all_digits(d),
    ensures
        digits_value(d.subrange(0, k)) <= digits_value(d),
    decreases d.len(),
{
    if k < d.len() {
        let p = d.drop_last();
        assert(all_digits(p));
        assert(p.subrange(0, k) =~= d.subrange(0, k));
        lemma_prefix_value_le(p, k);
    } else {
        assert(d.subrange(0, k) =~= d);
    }
}

/// Reads a field as an unsigned byte.
pub fn parse_u8(s: &[u8]) -> (r: Option<u8>)
    ensures
        r == parse_u8_spec(s@),
{
    let len = s.len();
    let mut start: usize = 0;
    if len > 0 && s[0] == PLUS {
        start = 1;
    }
    let ghost d = unsigned_part(s@);
    assert(d =~= s@.subrange(start as int, len as int));
    if start == len {
        return None;
    }
    let mut i: usize = start;
    let mut acc: u16 = 0;
    while i < len
        invariant
            start <= i <= len,
            len == s@.len(),
            d == s@.subrange(start as int, len as int),
            d == unsigned_part(s@),
            d.len() > 0,
            all_digits(d.subrange(0, i - start)),
            acc as nat == digits_value(d.subrange(0, i - start)),
            acc <= 255,
        decreases len - i,
    {
        let b = s[i];
        assert(d[i - start] == b);
        if b < ZERO || b > NINE {
            assert(!is_digit(d[i - start]));
            assert(!all_digits(d));
            return None;
        }
        let ghost next = d.subrange(0, i - start + 1);
        assert(next.drop_last() =~= d.subrange(0, i - start));
        assert(all_digits(next));
        assert(next.last() == b);
        acc = acc * 10 + (b - ZERO) as u16;
        assert(acc as nat == digits_value(next));
        if acc > 255 {
            proof {
                if all_digits(d) {
                    lemma_prefix_value_le(d, i - start + 1);
                }
            }
            return None;
        }
        i += 1;
    }
    assert(d.subrange(0, len - start) =~= d);
    Some(acc as u8)
}

/// Cuts `s` at every `sep`.
pub fn split_fields(s: &[u8], sep: u8) -> (r: Vec<Vec<u8>>)
    ensures
        r@.len() == split_spec(s@, sep).len(),
        forall|k: int| 0 <= k < r@.len() ==> #[trigger] r@[k]@ == split_spec(s@, sep)[k],
{
    let mut done: Vec<Vec<u8>> = Vec::new();
    let mut cur: Vec<u8> = Vec::new();
    let mut i: usize = 0;
    proof {
        assert(s@.subrange(0, 0) =~= Seq::<u8>::empty());
    }
    while i < s.len()
        invariant
            i <= s@.len(),
            done@.len() + 1 == split_spec(s@.subrange(0, i as int), sep).len(),
            forall|k: int| 0 <= k < done@.len() ==> #[trigger] done@[k]@ == split_spec(s@.subrange(0, i as int), sep)[k],
            cur@ == split_spec(s@.subrange(0, i as int), sep).last(),
        decreases s@.len() - i,
    {
        let ghost pre = s@.subrange(0, i as int);
        let ghost nxt = s@.subrange(0, i + 1);
        proof {
            assert(nxt.drop_last() =~= pre);
            lemma_split_nonempty(pre, sep);
        }
        let b = s[i];
        if b == sep {
            let piece = cur;
            done.push(piece);
            cur = Vec::new();
        } else {
            cur.push(b);
        }
        i += 1;
    }
    assert(s@.subrange(0, s@.len() as int) =~= s@);
    done.push(cur);
    done
}

/// First word of a line: command, data byte and controller id.
#[derive(Clone, Copy, Debug, PartialEq, Eq)]
pub struct ProgramWord {
    pub command: u8,
    pub data: u8,
    pub controller: u8,
}

/// Optional second word of a line: a car's speed.
#[derive(Clone, Copy, Debug, PartialEq, Eq)]
pub struct ControllerWord {
    pub car_id: u8,
    pub speed: u8,
}

/// The words of a line that were well formed.
#[derive(Clone, Copy, Debug, PartialEq, Eq)]
pub struct DecodedLine {
    pub program: Option<ProgramWord>,
    pub controller: Option<ControllerWord>,
}

/// A program-data-word: at least three fields, of which the first three are
/// bytes and the third a car id.
pub open spec fn program_word_spec(tok: Seq<u8>) -> Option<ProgramWord> {
    let f = split_spec(tok, FIELD_SEP);
    if f.len() >= 3 && parse_u8_spec(f[0]) is Some && parse_u8_spec(f[1]) is Some
        && parse_u8_spec(f[2]) is Some && (parse_u8_spec(f[2]).unwrap() as int) < FLEET_SIZE {
        Some(ProgramWord {
            command: parse_u8_spec(f[0]).unwrap(),
            data: parse_u8_spec(f[1]).unwrap(),
            controller: parse_u8_spec(f[2]).unwrap(),
        })
    } else {
        None
    }
}

/// A controller-word: exactly two fields, a car id and a byte.
pub open spec fn controller_word_spec(tok: Seq<u8>) -> Option<ControllerWord> {
    let f = split_spec(tok, FIELD_SEP);
    if f.len() == 2 && parse_u8_spec(f[0]) is Some && parse_u8_spec(f[1]) is Some
        && (parse_u8_spec(f[0]).unwrap() as int) < FLEET_SIZE {
        Some(ControllerWord { car_id: parse_u8_spec(f[0]).unwrap(), speed: parse_u8_spec(f[1]).unwrap() })
    } else {
        None
    }
}

/// A line read word by word; a malformed word is left out on its own.
pub open spec fn decode_spec(line: Seq<u8>) -> DecodedLine {
    let t = split_spec(line, WORD_SEP);
    DecodedLine {
        program: program_word_spec(t[0]),
        controller: if t.len() >= 2 { controller_word_spec(t[1]) } else { None },
    }
}

/// A record without its line terminator: CR LF, or a lone LF.
pub open spec fn strip_spec(r: Seq<u8>) -> Seq<u8> {
    if r.len() >= 2 && r[r.len() - 2] == CR && r[r.len() - 1] == LF {
        r.subrange(0, r.len() - 2)
    } else if r.len() >= 1 && r[r.len() - 1] == LF {
        r.drop_last()
    } else {
        r
    }
}

fn decode_program_word(tok: &[u8]) -> (r: Option<ProgramWord>)
    ensures
        r == program_word_spec(tok@),
{
    let f = split_fields(tok, FIELD_SEP);
    if f.len() < 3 {
        return None;
    }
    let command = parse_u8(f[0].as_slice());
    let data = parse_u8(f[1].as_slice());
    let controller = parse_u8(f[2].as_slice());
    match (command, data, controller) {
        (Some(command), Some(data), Some(controller)) => {
            if (controller as usize) < FLEET_SIZE {
                Some(ProgramWord { command, data, controller })
            } else {
                None
            }
        },
        _ => None,
    }
}

fn decode_controller_word(tok: &[u8]) -> (r: Option<ControllerWord>)
    ensures
        r == controller_word_spec(tok@),
{
    let f = split_fields(tok, FIELD_SEP);
    if f.len() != 2 {
        return None;
    }
    let car_id = parse_u8(f[0].as_slice());
    let speed = parse_u8(f[1].as_slice());
    match (car_id, speed) {
        (Some(car_id), Some(speed)) => {
            if (car_id as usize) < FLEET_SIZE {
                Some(ControllerWord { car_id, speed })
            } else {
                None
            }
        },
        _ => None,
    }
}

/// Reads one line (without its terminator) into its well-formed words.
pub fn decode_line(line: &[u8]) -> (r: DecodedLine)
    ensures
        r == decode_spec(line@),
{
    let t = split_fields(line, WORD_SEP);
    proof {
        lemma_split_nonempty(line@, WORD_SEP);
    }
    let program = decode_program_word(t[0].as_slice());
    let controller = if t.len() >= 2 {
        decode_controller_word(t[1].as_slice())
    } else {
        None
    };
    DecodedLine { program, controller }
}

/// Removes the line terminator from a record read off the device; a record
/// too short to hold one is left as it is.
pub fn strip_terminator(record: &[u8]) -> (r: Vec<u8>)
    ensures
        r@ == strip_spec(record@),
{
    let len = record.len();
    let end: usize = if len >= 2 && record[len - 2] == CR && record[len - 1] == LF {
        len - 2
    } else if len >= 1 && record[len - 1] == LF {
        len - 1
    } else {
        len
    };
    let mut r: Vec<u8> = Vec::new();
    let mut i: usize = 0;
    while i < end
        invariant
            i <= end <= len,
            len == record@.len(),
            r@ == record@.subrange(0, i as int),
        decreases end - i,
    {
        r.push(record[i]);
        assert(r@ =~= record@.subrange(0, i + 1));
        i += 1;
    }
    assert(strip_spec(record@) =~= record@.subrange(0, end as int));
    r
}

} // verus!
