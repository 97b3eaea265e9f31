//! Generic value semantics: rendering, encoding and hashing of the ordered
//! list of declared fields of a view.
use vstd::prelude::*;
use vstd::string::StringSliceAdditionalSpecFns;

verus! {

/// Offset basis of the 64-bit FNV-1a hash.
pub const FNV_OFFSET: u64 = 0xcbf29ce484222325;

/// Prime of the 64-bit FNV-1a hash.
pub const FNV_PRIME: u64 = 0x100000001b3;

/// One step of FNV-1a: mix one byte into the running hash.
pub open spec fn fnv_step(h: u64, b: u8) -> u64 {
    (h ^ (b as u64)).wrapping_mul(FNV_PRIME)
}

/// FNV-1a of a byte sequence.
pub open spec fn fnv1a(s: Seq<u8>) -> u64
    decreases s.len(),
{
    if s.len() == 0 {
        FNV_OFFSET
    } else {
        fnv_step(fnv1a(s.drop_last()), s.last())
    }
}

/// The parts laid end to end, in order.
pub open spec fn concat(parts: Seq<Seq<u8>>) -> Seq<u8>
    decreases parts.len(),
{
    if parts.len() == 0 {
        Seq::empty()
    } else {
        concat(parts.drop_last()) + parts.last()
    }
}

/// Decimal digits of `n`, most significant first, without leading zeros.
pub open spec fn decimal(n: nat) -> Seq<u8>
    decreases n,
{
    if n < 10 {
        seq![(48 + n) as u8]
    } else {
        decimal(n / 10) + seq![(48 + n % 10) as u8]
    }
}

/// Lower-case hexadecimal digit of `d < 16`.
pub open spec fn hex_digit(d: u8) -> u8 {
    if d < 10 {
        (48 + d) as u8
    } else {
        (87 + d) as u8
    }
}

/// How one byte of a text field is rendered between quotes: `"` and `\` are
/// escaped by a backslash, other printable ASCII stands as it is, and every
/// other byte is written `\xNN`.
pub open spec fn escape_byte(c: u8) -> Seq<u8> {
    if c == 34 || c == 92 {
        seq![92u8, c]
    } else if 32 <= c && c < 127 {
        seq![c]
    } else {
        seq![92u8, 120u8, hex_digit(c / 16), hex_digit(c % 16)]
    }
}

/// The escaped rendering of a byte sequence.
pub open spec fn escaped(s: Seq<u8>) -> Seq<u8>
    decreases s.len(),
{
    if s.len() == 0 {
        Seq::empty()
    } else {
        escaped(s.drop_last()) + escape_byte(s.last())
    }
}

/// A text field as rendered in a debug representation.
pub open spec fn quoted(s: Seq<u8>) -> Seq<u8> {
    seq![34u8] + escaped(s) + seq![34u8]
}

/// A flag as rendered in a debug representation.
pub open spec fn flag_text(b: bool) -> Seq<u8> {
    if b {
        seq![116u8, 114u8, 117u8, 101u8]
    } else {
        seq![102u8, 97u8, 108u8, 115u8, 101u8]
    }
}

/// Appends the decimal digits of `n`.
pub fn push_decimal(out: &mut Vec<u8>, n: u64)
    ensures
        final(out)@ == old(out)@ + decimal(n as nat),
    decreases n,
{
    if n >= 10 {
        push_decimal(out, n / 10);
    }
    out.push((48 + n % 10) as u8);
    proof {
        assert(out@ =~= old(out)@ + decimal(n as nat));
    }
}

/// Compares two byte sequences, stopping at the first difference.
pub fn bytes_equal(a: &[u8], b: &[u8]) -> (r: bool)
    ensures
        r == (a@ == b@),
{
    if a.len() != b.len() {
        return false;
    }
    let mut i: usize = 0;
    while i < a.len()
        invariant
            a@.len() == b@.len(),
            i <= a@.len(),
            a@.take(i as int) == b@.take(i as int),
        decreases a@.len() - i,
    {
        if a[i] != b[i] {
            assert(a@[i as int] != b@[i as int]);
            return false;
        }
        assert(a@.take(i as int + 1) =~= b@.take(i as int + 1));
        i = i + 1;
    }
    assert(a@ =~= a@.take(i as int));
    assert(b@ =~= b@.take(i as int));
    true
}

/// Appends the escaped rendering of one byte.
fn push_escaped_byte(out: &mut Vec<u8>, c: u8)
    ensures
        final(out)@ == old(out)@ + escape_byte(c),
{
    if c == 34 || c == 92 {
        out.push(92);
        out.push(c);
    } else if 32 <= c && c < 127 {
        out.push(c);
    } else {
        let hi: u8 = c / 16;
        let lo: u8 = c % 16;
        out.push(92);
        out.push(120);
        out.push(if hi < 10 { 48 + hi } else { 87 + hi });
        out.push(if lo < 10 { 48 + lo } else { 87 + lo });
    }
    assert(out@ =~= old(out)@ + escape_byte(c));
}

/// Appends the quoted, escaped rendering of a text field.
pub fn push_quoted(out: &mut Vec<u8>, s: &[u8])
    ensures
        final(out)@ == old(out)@ + quoted(s@),
{
    out.push(34);
    let ghost start = out@;
    let mut i: usize = 0;
    while i < s.len()
        invariant
            i <= s@.len(),
            out@ == start + escaped(s@.take(i as int)),
        decreases s@.len() - i,
    {
        proof {
            assert(s@.take(i as int + 1).drop_last() =~= s@.take(i as int));
        }
        push_escaped_byte(out, s[i]);
        i = i + 1;
        assert(out@ =~= start + escaped(s@.take(i as int)));
    }
    assert(s@.take(i as int) =~= s@);
    out.push(34);
    assert(out@ =~= old(out)@ + quoted(s@));
}

/// Appends `true` or `false`.
pub fn push_flag(out: &mut Vec<u8>, b: bool)
    ensures
        final(out)@ == old(out)@ + flag_text(b),
{
    if b {
        out.push(116);
        out.push(114);
        out.push(117);
        out.push(101);
    } else {
        out.push(102);
        out.push(97);
        out.push(108);
        out.push(115);
        out.push(101);
    }
    assert(out@ =~= old(out)@ + flag_text(b));
}

/// Appends the bytes of `s`.
pub fn push_bytes(out: &mut Vec<u8>, s: &[u8])
    ensures
        final(out)@ == old(out)@ + s@,
{
    let mut i: usize = 0;
    while i < s.len()
        invariant
            i <= s@.len(),
            out@ == old(out)@ + s@.take(i as int),
        decreases s@.len() - i,
    {
        out.push(s[i]);
        i = i + 1;
        assert(out@ =~= old(out)@ + s@.take(i as int));
    }
    assert(s@.take(i as int) =~= s@);
}

/// The views of a list of byte buffers.
pub open spec fn views(parts: Seq<Vec<u8>>) -> Seq<Seq<u8>> {
    parts.map_values(|p: Vec<u8>| p@)
}

/// Hashes the encoded outputs of a view's declared fields, in the order given:
/// FNV-1a over their concatenation.
pub fn hash_parts(parts: &Vec<Vec<u8>>) -> (r: u64)
    ensures
        r == fnv1a(concat(views(parts@))),
{
    let mut h: u64 = FNV_OFFSET;
    let mut k: usize = 0;
    while k < parts.len()
        invariant
            k <= parts@.len(),
            h == fnv1a(concat(views(parts@.take(k as int)))),
        decreases parts@.len() - k,
    {
        let part: &Vec<u8> = &parts[k];
        let ghost before = concat(views(parts@.take(k as int)));
        let mut i: usize = 0;
        while i < part.len()
            invariant
                i <= part@.len(),
                part@ == parts@[k as int]@,
                h == fnv1a(before + part@.take(i as int)),
            decreases part@.len() - i,
        {
            proof {
                let s = before + part@.take(i as int + 1);
                assert(s.drop_last() =~= before + part@.take(i as int));
                assert(s.last() == part@[i as int]);
            }
            h = (h ^ (part[i] as u64)).wrapping_mul(FNV_PRIME);
            i = i + 1;
        }
        proof {
            assert(part@.take(i as int) =~= part@);
            assert(views(parts@.take(k as int + 1)).drop_last() =~= views(parts@.take(k as int)));
        }
        k = k + 1;
    }
    assert(parts@.take(k as int) =~= parts@);
    h
}

/// `": "`, between a declared name and its value.
pub open spec fn colon_space() -> Seq<u8> {
    seq![58u8, 32u8]
}

/// `", "`, between two entries.
pub open spec fn comma_space() -> Seq<u8> {
    seq![44u8, 32u8]
}

/// One entry of a debug representation: the declared name, `": "`, the
/// rendered value.
pub open spec fn entry(name: Seq<u8>, value: Seq<u8>) -> Seq<u8> {
    name + colon_space() + value
}

/// The entries, in order, separated by `", "`.
pub open spec fn joined(entries: Seq<Seq<u8>>) -> Seq<u8>
    decreases entries.len(),
{
    if entries.len() == 0 {
        Seq::empty()
    } else if entries.len() == 1 {
        entries[0]
    } else {
        joined(entries.drop_last()) + comma_space() + entries.last()
    }
}

/// The entries formed from declared names and rendered values, in declared
/// order.
pub open spec fn entries(names: Seq<&str>, values: Seq<Seq<u8>>) -> Seq<Seq<u8>> {
    Seq::new(names.len(), |i: int| entry(names[i].spec_bytes(), values[i]))
}

/// A structured record: `Name { a: 1, b: "x" }`, or `Name` alone when it
/// declares no field.
pub open spec fn debug_text(kind_name: Seq<u8>, entries: Seq<Seq<u8>>) -> Seq<u8> {
    if entries.len() == 0 {
        kind_name
    } else {
        kind_name + seq![32u8, 123u8, 32u8] + joined(entries) + seq![32u8, 125u8]
    }
}

/// Renders a view's declared fields as a structured record: the type's name,
/// then each declared name with its rendered value, in declared order.
pub fn debug_record(kind_name: &str, names: &Vec<&str>, values: &Vec<Vec<u8>>) -> (r: Vec<u8>)
    requires
        names@.len() == values@.len(),
    ensures
        r@ == debug_text(kind_name.spec_bytes(), entries(names@, views(values@))),
{
    let ghost es = entries(names@, views(values@));
    let mut out: Vec<u8> = Vec::new();
    push_bytes(&mut out, kind_name.as_bytes());
    if names.len() == 0 {
        assert(out@ =~= kind_name.spec_bytes());
        return out;
    }
    out.push(32);
    out.push(123);
    out.push(32);
    let ghost start = out@;
    let mut i: usize = 0;
    while i < names.len()
        invariant
            names@.len() == values@.len(),
            es == entries(names@, views(values@)),
            i <= names@.len(),
            out@ == start + joined(es.take(i as int)),
        decreases names@.len() - i,
    {
        let ghost prev = out@;
        if i > 0 {
            out.push(44);
            out.push(32);
        }
        push_bytes(&mut out, names[i].as_bytes());
        out.push(58);
        out.push(32);
        push_bytes(&mut out, values[i].as_slice());
        proof {
            let t = es.take(i as int + 1);
            assert(t.drop_last() =~= es.take(i as int));
            assert(t.last() == entry(names@[i as int].spec_bytes(), values@[i as int]@));
            if i == 0 {
                assert(joined(t) == t[0]);
                assert(joined(es.take(0)) =~= Seq::<u8>::empty());
                assert(out@ =~= start + joined(t));
            } else {
                assert(out@ =~= start + joined(t));
            }
        }
        i = i + 1;
    }
    assert(es.take(i as int) =~= es);
    out.push(32);
    out.push(125);
    assert(out@ =~= debug_text(kind_name.spec_bytes(), es));
    out
}

/// How an unsigned field is fed to the hash: `u`, its decimal digits, `;`.
pub open spec fn unsigned_code(n: nat) -> Seq<u8> {
    seq![117u8] + decimal(n) + seq![59u8]
}

/// How a text field is fed to the hash: `s`, its length in decimal, `:`, its
/// bytes.
pub open spec fn text_code(s: Seq<u8>) -> Seq<u8> {
    seq![115u8] + decimal(s.len()) + seq![58u8] + s
}

/// How a flag is fed to the hash: `b`, then `1` or `0`.
pub open spec fn flag_code(b: bool) -> Seq<u8> {
    seq![98u8, if b { 49u8 } else { 48u8 }]
}

/// How a nested record is fed to the hash: `r`, the codes of its own declared
/// fields in order, `e`.
pub open spec fn record_code(parts: Seq<Seq<u8>>) -> Seq<u8> {
    seq![114u8] + concat(parts) + seq![101u8]
}

/// The hash code of an unsigned field.
pub fn encode_unsigned(n: u64) -> (r: Vec<u8>)
    ensures
        r@ == unsigned_code(n as nat),
{
    let mut out: Vec<u8> = Vec::new();
    out.push(117);
    push_decimal(&mut out, n);
    out.push(59);
    assert(out@ =~= unsigned_code(n as nat));
    out
}

/// The hash code of a text field.
pub fn encode_text(s: &[u8]) -> (r: Vec<u8>)
    ensures
        r@ == text_code(s@),
{
    let mut out: Vec<u8> = Vec::new();
    out.push(115);
    push_decimal(&mut out, s.len() as u64);
    out.push(58);
    push_bytes(&mut out, s);
    assert(out@ =~= text_code(s@));
    out
}

/// The hash code of a flag.
pub fn encode_flag(b: bool) -> (r: Vec<u8>)
    ensures
        r@ == flag_code(b),
{
    let mut out: Vec<u8> = Vec::new();
    out.push(98);
    out.push(if b { 49 } else { 48 });
    assert(out@ =~= flag_code(b));
    out
}

/// The hash code of a nested record, from the codes of its declared fields.
pub fn encode_record(parts: &Vec<Vec<u8>>) -> (r: Vec<u8>)
    ensures
        r@ == record_code(views(parts@)),
{
    let mut out: Vec<u8> = Vec::new();
    out.push(114);
    let mut k: usize = 0;
    while k < parts.len()
        invariant
            k <= parts@.len(),
            out@ == seq![114u8] + concat(views(parts@.take(k as int))),
        decreases parts@.len() - k,
    {
        push_bytes(&mut out, parts[k].as_slice());
        proof {
            assert(views(parts@.take(k as int + 1)).drop_last() =~= views(parts@.take(k as int)));
        }
        k = k + 1;
        assert(out@ =~= seq![114u8] + concat(views(parts@.take(k as int))));
    }
    assert(parts@.take(k as int) =~= parts@);
    out.push(101);
    assert(out@ =~= record_code(views(parts@)));
    out
}

} // verus!
