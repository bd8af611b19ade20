//! Native-text handling: UTF-16 code-unit buffers read from or handed to the
//! host system, truncated at the first terminator, with a visible placeholder
//! substituted when decoding fails.

use vstd::prelude::*;

verus! {

/// What decoding a UTF-16 code-unit sequence yields: the decoded characters,
/// or nothing where the sequence is not valid UTF-16.
pub uninterp spec fn utf16_decode(units: Seq<u16>) -> Option<Seq<char>>;

/// Relies on `String::from_utf16`: decodes UTF-16 code units, `Err` exactly
/// on invalid data; an empty buffer decodes to the empty string.
#[verifier::external_body]
fn utf16_to_string(units: &Vec<u16>) -> (r: Option<String>)
    ensures
        r matches Some(s) ==> utf16_decode(units@) == Some(s@) && (units@.len() == 0
            ==> s@ =~= Seq::<char>::empty()),
        r is None ==> utf16_decode(units@) is None && units@.len() != 0,
{
    String::from_utf16(units).ok()
}

/// Index of the first terminator (a zero unit), or the buffer's length where
/// none occurs.
pub open spec fn first_nul(units: Seq<u16>) -> int
    decreases units.len(),
{
    if units.len() == 0 {
        0
    } else if units[0] == 0 {
        0
    } else {
        1 + first_nul(units.drop_first())
    }
}

pub proof fn lemma_first_nul_bounds(units: Seq<u16>)
    ensures
        0 <= first_nul(units) <= units.len(),
        forall|i: int| 0 <= i < first_nul(units) ==> units[i] != 0,
        first_nul(units) < units.len() ==> units[first_nul(units)] == 0,
    decreases units.len(),
{
    if units.len() > 0 && units[0] != 0 {
        lemma_first_nul_bounds(units.drop_first());
        assert forall|i: int| 0 <= i < first_nul(units) implies units[i] != 0 by {
            if i > 0 {
                assert(units.drop_first()[i - 1] != 0);
            }
        }
    }
}

/// The portable text a native code-unit buffer stands for: the units before
/// the first terminator, decoded, or the visible placeholder where they are
/// not valid UTF-16.
pub open spec fn decoded_text(units: Seq<u16>) -> Seq<char> {
    match utf16_decode(units.take(first_nul(units))) {
        Some(t) => t,
        None => "ERROR!"@,
    }
}

/// Decode a native text buffer: truncate at the first terminator, decode the
/// rest, and substitute the placeholder rather than fail when the units are
/// not valid UTF-16.
pub fn decode_native_text(units: &Vec<u16>) -> (r: String)
    ensures
        r@ == decoded_text(units@),
        first_nul(units@) == 0 ==> r@ =~= Seq::<char>::empty(),
{
    proof {
        lemma_first_nul_bounds(units@);
    }
    let end = first_terminator(units);
    let mut prefix: Vec<u16> = Vec::new();
    let mut j: usize = 0;
    while j < end
        invariant
            end <= units@.len(),
            j <= end,
            prefix@ =~= units@.take(end as int).take(j as int),
        decreases end - j,
    {
        prefix.push(units[j]);
        proof {
            assert(prefix@ =~= units@.take(end as int).take(j + 1));
        }
        j += 1;
    }
    proof {
        assert(prefix@ =~= units@.take(first_nul(units@)));
    }
    match utf16_to_string(&prefix) {
        Some(s) => s,
        None => "ERROR!".to_owned(),
    }
}

/// Index of the first zero unit, or the length where none occurs.
fn first_terminator(units: &Vec<u16>) -> (end: usize)
    ensures
        end as int == first_nul(units@),
{
    proof {
        lemma_first_nul_bounds(units@);
    }
    let mut i: usize = 0;
    while i < units.len()
        invariant
            i <= units@.len(),
            forall|k: int| 0 <= k < i ==> units@[k] != 0,
        decreases units@.len() - i,
    {
        if units[i] == 0 {
            proof {
                lemma_first_nul_at(units@, i as int);
            }
            return i;
        }
        i += 1;
    }
    proof {
        lemma_first_nul_at(units@, units@.len() as int);
    }
    i
}

/// The first terminator is the unique position before which no unit is zero
/// and at which the buffer ends or holds a zero.
proof fn lemma_first_nul_at(units: Seq<u16>, k: int)
    requires
        0 <= k <= units.len(),
        forall|i: int| 0 <= i < k ==> units[i] != 0,
        k < units.len() ==> units[k] == 0,
    ensures
        first_nul(units) == k,
    decreases units.len(),
{
    if units.len() > 0 && units[0] != 0 {
        assert forall|i: int| 0 <= i < k - 1 implies units.drop_first()[i] != 0 by {
            assert(units[i + 1] != 0);
        }
        lemma_first_nul_at(units.drop_first(), k - 1);
    }
}

/// The selected entry of a combo box: the index the host reported and the
/// decoded label text the host filled into the buffer.  An empty selected
/// label comes back as the empty string, never as the placeholder.
pub fn get_combobox_selection(selected: u32, label: &Vec<u16>) -> (r: (u32, String))
    ensures
        r.0 == selected,
        r.1@ == decoded_text(label@),
        label@.len() == 0 || label@[0] == 0 ==> r.1@ =~= Seq::<char>::empty(),
{
    let text = decode_native_text(label);
    proof {
        if label@.len() == 0 || label@[0] == 0 {
            assert(first_nul(label@) == 0);
            assert(label@.take(0) =~= Seq::<u16>::empty());
        }
    }
    (selected, text)
}

/// The UTF-16 code units of one character: the unit itself below the
/// supplementary plane, else a surrogate pair.
pub open spec fn utf16_units_of_char(c: char) -> Seq<u16> {
    if (c as u32) < 0x10000 {
        seq![c as u16]
    } else {
        let bits = ((c as u32) - 0x10000) as u32;
        seq![(0xD800 + (bits >> 10u32)) as u16, (0xDC00 + (bits & 0x3FF)) as u16]
    }
}

/// The UTF-16 code units of a character sequence.
pub open spec fn utf16_units(s: Seq<char>) -> Seq<u16>
    decreases s.len(),
{
    if s.len() == 0 {
        Seq::empty()
    } else {
        utf16_units_of_char(s[0]) + utf16_units(s.drop_first())
    }
}

proof fn lemma_utf16_units_push(s: Seq<char>, c: char)
    ensures
        utf16_units(s.push(c)) =~= utf16_units(s) + utf16_units_of_char(c),
    decreases s.len(),
{
    if s.len() == 0 {
        assert(s.push(c)[0] == c);
        assert(s.push(c).drop_first() =~= Seq::<char>::empty());
        assert(utf16_units(s.push(c).drop_first()) =~= Seq::<u16>::empty());
        assert(utf16_units(s) =~= Seq::<u16>::empty());
    } else {
        assert(s.push(c)[0] == s[0]);
        assert(s.push(c).drop_first() =~= s.drop_first().push(c));
        lemma_utf16_units_push(s.drop_first(), c);
        assert(utf16_units(s.push(c)) == utf16_units_of_char(s[0]) + utf16_units(
            s.push(c).drop_first(),
        ));
        assert(utf16_units(s) == utf16_units_of_char(s[0]) + utf16_units(s.drop_first()));
    }
}

/// Encode a string into the host's native text form: its UTF-16 code units
/// followed by a terminator.
pub fn to_utf16(s: &String) -> (r: Vec<u16>)
    ensures
        r@ == utf16_units(s@) + seq![0u16],
{
    let mut out: Vec<u16> = Vec::new();
    let n = s.as_str().unicode_len();
    proof {
        assert(s@.take(0int) =~= Seq::<char>::empty());
        assert(utf16_units(s@.take(0int)) =~= Seq::<u16>::empty());
    }
    let mut i: usize = 0;
    while i < n
        invariant
            n == s@.len(),
            i <= n,
            out@ == utf16_units(s@.take(i as int)),
        decreases n - i,
    {
        let c = s.as_str().get_char(i);
        proof {
            assert(s@.take(i + 1) =~= s@.take(i as int).push(s@[i as int]));
            lemma_utf16_units_push(s@.take(i as int), s@[i as int]);
        }
        let cp: u32 = c as u32;
        if cp < 0x10000 {
            out.push(cp as u16);
        } else {
            let bits: u32 = cp - 0x10000;
            proof {
                assert(bits >> 10u32 <= 0x3FF) by (bit_vector)
                    requires
                        bits <= 0xFFFFF,
                ;
                assert(bits & 0x3FF <= 0x3FF) by (bit_vector);
            }
            let high: u16 = (0xD800 + (bits >> 10u32)) as u16;
            let low: u16 = (0xDC00 + (bits & 0x3FF)) as u16;
            out.push(high);
            out.push(low);
            proof {
                assert(out@ =~= utf16_units(s@.take(i as int)) + utf16_units_of_char(
                    s@[i as int],
                ));
            }
        }
        i += 1;
    }
    proof {
        assert(s@.take(n as int) =~= s@);
    }
    out.push(0u16);
    proof {
        assert(out@ =~= utf16_units(s@) + seq![0u16]);
    }
    out
}

/// The code-unit buffer handed to the host when setting a placeholder: the
/// text's native form, or a lone terminator to clear the placeholder.
pub fn placeholder_units(placeholder: Option<&String>) -> (r: Vec<u16>)
    ensures
        match placeholder {
            Some(p) => r@ == utf16_units(p@) + seq![0u16],
            None => r@ == seq![0u16],
        },
{
    match placeholder {
        Some(p) => to_utf16(p),
        None => {
            let mut out: Vec<u16> = Vec::new();
            out.push(0u16);
            proof {
                assert(out@ =~= seq![0u16]);
            }
            out
        },
    }
}

/// Read a placeholder back from the fixed-width buffer the host filled: a
/// buffer whose text ends within the first two units reports no
/// placeholder; anything longer is decoded like any native text.
pub fn get_placeholder(buffer: &Vec<u16>) -> (r: Option<String>)
    ensures
        (r is Some) == (first_nul(buffer@) > 1),
        r matches Some(s) ==> s@ == decoded_text(buffer@),
{
    let end = first_terminator(buffer);
    if end > 1 {
        Some(decode_native_text(buffer))
    } else {
        None
    }
}

} // verus!
