use vstd::prelude::*;
use vstd::string::*;

verus! {

/// The largest octave number a note name may carry.
pub const MAX_OCTAVE: u64 = 2147483647;

pub open spec fn is_letter(c: char) -> bool {
    'A' <= c && c <= 'G'
}

pub open spec fn is_accidental(c: char) -> bool {
    c == '#' || c == 'b'
}

pub open spec fn is_digit(c: char) -> bool {
    '0' <= c && c <= '9'
}

/// Where the run of accidentals that starts at `k` ends.
pub open spec fn accidentals_end(s: Seq<char>, k: int) -> int
    decreases s.len() - k,
{
    if 0 <= k < s.len() && is_accidental(s[k]) {
        accidentals_end(s, k + 1)
    } else {
        k
    }
}

/// Where the run of digits that starts at `k` ends.
pub open spec fn digits_end(s: Seq<char>, k: int) -> int
    decreases s.len() - k,
{
    if 0 <= k < s.len() && is_digit(s[k]) {
        digits_end(s, k + 1)
    } else {
        k
    }
}

/// Where an octave token that starts at `k` ends: `N1`, else a run of at
/// least one digit.
pub open spec fn octave_end(s: Seq<char>, k: int) -> Option<int> {
    if 0 <= k && k + 2 <= s.len() && s[k] == 'N' && s[k + 1] == '1' {
        Some(k + 2)
    } else if 0 <= k < s.len() && is_digit(s[k]) {
        Some(digits_end(s, k))
    } else {
        None
    }
}

/// A note name that starts at `i`: a letter from `A` to `G`, accidentals,
/// and an octave token. Gives where the accidentals and the octave token end.
pub open spec fn note_at(s: Seq<char>, i: int) -> Option<(int, int)> {
    if 0 <= i < s.len() && is_letter(s[i]) {
        match octave_end(s, accidentals_end(s, i + 1)) {
            Some(o) => Some((accidentals_end(s, i + 1), o)),
            None => None,
        }
    } else {
        None
    }
}

/// The first note name at or after `i`, with where it starts.
pub open spec fn first_note(s: Seq<char>, i: int) -> Option<(int, int, int)>
    decreases s.len() - i,
{
    if i < 0 || i >= s.len() {
        None
    } else {
        match note_at(s, i) {
            Some((a, o)) => Some((i, a, o)),
            None => first_note(s, i + 1),
        }
    }
}

/// The number a run of decimal digits spells.
pub open spec fn digits_value(d: Seq<char>) -> nat
    decreases d.len(),
{
    if d.len() == 0 {
        0
    } else {
        digits_value(d.drop_last()) * 10 + ((d.last() as u32) - ('0' as u32)) as nat
    }
}

/// The octave marks of ABC notation, where octave 4 has none: a comma for
/// each octave below, an apostrophe for each octave above; `N1` is six
/// octaves below. `None` for an octave number past `MAX_OCTAVE`.
pub open spec fn abc_octave(octave: Seq<char>) -> Option<Seq<char>> {
    if octave == seq!['N', '1'] {
        Some(Seq::new(6, |j: int| ','))
    } else if digits_value(octave) > MAX_OCTAVE {
        None
    } else if digits_value(octave) < 4 {
        Some(Seq::new((4 - digits_value(octave)) as nat, |j: int| ','))
    } else {
        Some(Seq::new((digits_value(octave) - 4) as nat, |j: int| '\''))
    }
}

/// Accidentals in ABC notation: `^` for a sharp, `_` for a flat.
pub open spec fn abc_accidentals(a: Seq<char>) -> Seq<char> {
    a.map_values(|c: char| if c == '#' { '^' } else if c == 'b' { '_' } else { c })
}

/// The first note name in `s` written in ABC notation: accidentals, letter,
/// octave marks. Text with no note name, or whose octave number is past
/// `MAX_OCTAVE`, is kept as it is.
pub open spec fn abc_note(s: Seq<char>) -> Seq<char> {
    match first_note(s, 0) {
        None => s,
        Some((i, a, o)) => match abc_octave(s.subrange(a, o)) {
            None => s,
            Some(marks) => abc_accidentals(s.subrange(i + 1, a)) + seq![s[i]] + marks,
        },
    }
}

/// The ABC notation of a sequence of notes played together, one unit long.
pub open spec fn abc_chord(notes: Seq<Seq<char>>) -> Seq<char> {
    "L: 1/1 \n["@ + notes.map_values(|n: Seq<char>| abc_note(n)).flatten() + "]"@
}

fn accidentals_end_of(s: &str, n: usize, k: usize) -> (r: usize)
    requires
        n == s@.len(),
        k <= n,
    ensures
        r == accidentals_end(s@, k as int),
        k <= r <= n,
{
    let mut j: usize = k;
    while j < n
        invariant
            n == s@.len(),
            k <= j <= n,
            accidentals_end(s@, j as int) == accidentals_end(s@, k as int),
        decreases n - j,
    {
        let c = s.get_char(j);
        if !(c == '#' || c == 'b') {
            return j;
        }
        j = j + 1;
    }
    j
}

fn digits_end_of(s: &str, n: usize, k: usize) -> (r: usize)
    requires
        n == s@.len(),
        k <= n,
    ensures
        r == digits_end(s@, k as int),
        k <= r <= n,
{
    let mut j: usize = k;
    while j < n
        invariant
            n == s@.len(),
            k <= j <= n,
            digits_end(s@, j as int) == digits_end(s@, k as int),
        decreases n - j,
    {
        let c = s.get_char(j);
        if !('0' <= c && c <= '9') {
            return j;
        }
        j = j + 1;
    }
    j
}

fn octave_end_of(s: &str, n: usize, k: usize) -> (r: Option<usize>)
    requires
        n == s@.len(),
        k <= n,
    ensures
        r matches Some(o) ==> octave_end(s@, k as int) == Some(o as int) && k < o <= n,
        r is None ==> octave_end(s@, k as int) is None,
{
    if n - k >= 2 && s.get_char(k) == 'N' && s.get_char(k + 1) == '1' {
        return Some(k + 2);
    }
    if k < n {
        let c = s.get_char(k);
        if '0' <= c && c <= '9' {
            return Some(digits_end_of(s, n, k + 1));
        }
    }
    None
}

fn note_at_of(s: &str, n: usize, i: usize) -> (r: Option<(usize, usize)>)
    requires
        n == s@.len(),
        i < n,
    ensures
        r matches Some((a, o)) ==> note_at(s@, i as int) == Some((a as int, o as int)) && i < a < o <= n,
        r is None ==> note_at(s@, i as int) is None,
{
    let c = s.get_char(i);
    if 'A' <= c && c <= 'G' {
        let a = accidentals_end_of(s, n, i + 1);
        match octave_end_of(s, n, a) {
            Some(o) => Some((a, o)),
            None => None,
        }
    } else {
        None
    }
}

fn first_note_of(s: &str, n: usize) -> (r: Option<(usize, usize, usize)>)
    requires
        n == s@.len(),
    ensures
        r matches Some((i, a, o)) ==> first_note(s@, 0) == Some((i as int, a as int, o as int))
            && note_at(s@, i as int) == Some((a as int, o as int)) && i < a < o <= n,
        r is None ==> first_note(s@, 0) is None,
{
    let mut i: usize = 0;
    while i < n
        invariant
            n == s@.len(),
            i <= n,
            first_note(s@, i as int) == first_note(s@, 0),
        decreases n - i,
    {
        match note_at_of(s, n, i) {
            Some((a, o)) => {
                return Some((i, a, o));
            },
            None => {},
        }
        i = i + 1;
    }
    None
}

/// Every character of the run that `accidentals_end` skips is an accidental.
proof fn lemma_accidentals_run(s: Seq<char>, k: int)
    requires
        0 <= k,
    ensures
        k <= accidentals_end(s, k),
        accidentals_end(s, k) <= s.len() || accidentals_end(s, k) == k,
        forall|j: int| k <= j < accidentals_end(s, k) ==> is_accidental(#[trigger] s[j]),
    decreases s.len() - k,
{
    if 0 <= k < s.len() && is_accidental(s[k]) {
        lemma_accidentals_run(s, k + 1);
    }
}

/// Every character of the run that `digits_end` skips is a digit.
proof fn lemma_digits_run(s: Seq<char>, k: int)
    requires
        0 <= k,
    ensures
        k <= digits_end(s, k),
        forall|j: int| k <= j < digits_end(s, k) ==> is_digit(#[trigger] s[j]),
    decreases s.len() - k,
{
    if 0 <= k < s.len() && is_digit(s[k]) {
        lemma_digits_run(s, k + 1);
    }
}

/// A run of digits spells at least what any of its prefixes spells.
proof fn lemma_digits_value_grows(d: Seq<char>, m: int)
    requires
        0 <= m <= d.len(),
        forall|j: int| 0 <= j < d.len() ==> is_digit(#[trigger] d[j]),
    ensures
        digits_value(d.subrange(0, m)) <= digits_value(d),
    decreases d.len(),
{
    if m < d.len() {
        let e = d.drop_last();
        assert forall|j: int| 0 <= j < e.len() implies is_digit(#[trigger] e[j]) by {
            assert(e[j] == d[j]);
        }
        lemma_digits_value_grows(e, m);
        assert(e.subrange(0, m) =~= d.subrange(0, m));
    } else {
        assert(d.subrange(0, m) =~= d);
    }
}

/// The number that the digits of `s` from `a` to `o` spell, if it is at
/// most `MAX_OCTAVE`.
fn octave_number(s: &str, n: usize, a: usize, o: usize) -> (r: Option<u64>)
    requires
        n == s@.len(),
        a <= o <= n,
        forall|j: int| a <= j < o ==> is_digit(#[trigger] s@[j]),
    ensures
        r matches Some(v) ==> v == digits_value(s@.subrange(a as int, o as int)) && v <= MAX_OCTAVE,
        r is None ==> digits_value(s@.subrange(a as int, o as int)) > MAX_OCTAVE,
{
    let ghost d = s@.subrange(a as int, o as int);
    let mut v: u64 = 0;
    let mut j: usize = a;
    proof {
        assert(s@.subrange(a as int, a as int) =~= Seq::<char>::empty());
    }
    while j < o
        invariant
            n == s@.len(),
            a <= j <= o <= n,
            d == s@.subrange(a as int, o as int),
            forall|m: int| a <= m < o ==> is_digit(#[trigger] s@[m]),
            v == digits_value(s@.subrange(a as int, j as int)),
            v <= MAX_OCTAVE,
        decreases o - j,
    {
        let c = s.get_char(j);
        assert(is_digit(s@[j as int]));
        let digit: u64 = ((c as u32) - ('0' as u32)) as u64;
        proof {
            assert(s@.subrange(a as int, j + 1).drop_last() =~= s@.subrange(a as int, j as int));
            assert(s@.subrange(a as int, j + 1).last() == c);
        }
        v = v * 10 + digit;
        j = j + 1;
        if v > MAX_OCTAVE {
            proof {
                assert forall|m: int| 0 <= m < d.len() implies is_digit(#[trigger] d[m]) by {
                    assert(d[m] == s@[a + m]);
                }
                lemma_digits_value_grows(d, j - a);
                assert(d.subrange(0, j - a) =~= s@.subrange(a as int, j as int));
            }
            return None;
        }
    }
    Some(v)
}

/// Appends `count` copies of `mark` to `out`.
fn append_marks(out: &mut String, mark: &str, count: u64)
    requires
        mark@.len() == 1,
    ensures
        final(out)@ == old(out)@ + Seq::new(count as nat, |j: int| mark@[0]),
{
    let mut k: u64 = 0;
    while k < count
        invariant
            mark@.len() == 1,
            k <= count,
            out@ == old(out)@ + Seq::new(k as nat, |j: int| mark@[0]),
        decreases count - k,
    {
        out.append(mark);
        k = k + 1;
        assert(out@ =~= old(out)@ + Seq::new(k as nat, |j: int| mark@[0]));
    }
}

/// The first note name in `note` (a letter from `A` to `G`, sharps `#` or
/// flats `b`, and an octave number or `N1`) written in ABC notation.
///
/// Only the ASCII digits `0` to `9` make an octave number: a letter followed
/// by a digit of another script is no note name here, and the search goes on
/// after it. A Unicode `\d` in a regular expression would take such a digit,
/// which then could not be read as an `i32`.
pub fn convert_note(note: &str) -> (r: String)
    ensures
        r@ == abc_note(note@),
{
    let n = note.unicode_len();
    let (i, a, o) = match first_note_of(note, n) {
        None => {
            return String::from_str(note);
        },
        Some(found) => found,
    };
    let ghost s = note@;
    proof {
        lemma_accidentals_run(s, i + 1);
        lemma_digits_run(s, a as int);
        lemma_digits_run(s, a + 1);
    }
    let is_n1 = o - a == 2 && note.get_char(a) == 'N' && note.get_char(a + 1) == '1';
    let mut out = String::new();
    let mut j: usize = i + 1;
    proof {
        assert(s.subrange(i + 1, i + 1) =~= Seq::<char>::empty());
    }
    while j < a
        invariant
            n == s.len(),
            s == note@,
            i + 1 <= j <= a,
            a <= n,
            a == accidentals_end(s, i + 1),
            forall|m: int| i + 1 <= m < a ==> is_accidental(#[trigger] s[m]),
            out@ == abc_accidentals(s.subrange(i + 1, j as int)),
        decreases a - j,
    {
        let c = note.get_char(j);
        if c == '#' {
            out.append("^");
        } else {
            out.append("_");
        }
        proof {
            reveal_strlit("^");
            reveal_strlit("_");
            assert(is_accidental(s[j as int]));
            assert(abc_accidentals(s.subrange(i + 1, j + 1)) =~= abc_accidentals(s.subrange(i + 1, j as int))
                + seq![if c == '#' { '^' } else { '_' }]);
        }
        j = j + 1;
    }
    let letter = note.substring_char(i, i + 1);
    out.append(letter);
    proof {
        assert(letter@ =~= seq![s[i as int]]);
    }
    let ghost head = out@;
    if is_n1 {
        proof {
            reveal_strlit(",");
            assert(s.subrange(a as int, o as int) =~= seq!['N', '1']);
        }
        append_marks(&mut out, ",", 6);
        proof {
            reveal_strlit(",");
            assert(out@ =~= head + Seq::new(6, |m: int| ','));
        }
    } else {
        proof {
            assert(is_digit(s[a as int]));
            assert(o == digits_end(s, a as int));
            assert(s.subrange(a as int, o as int)[0] == s[a as int]);
        }
        match octave_number(note, n, a, o) {
            None => {
                return String::from_str(note);
            },
            Some(v) => {
                proof {
                    reveal_strlit(",");
                    reveal_strlit("'");
                }
                if v < 4 {
                    append_marks(&mut out, ",", 4 - v);
                    proof {
                        assert(out@ =~= head + Seq::new((4 - v) as nat, |m: int| ','));
                    }
                } else {
                    append_marks(&mut out, "'", v - 4);
                    proof {
                        assert(out@ =~= head + Seq::new((v - 4) as nat, |m: int| '\''));
                    }
                }
            },
        }
    }
    out
}

/// The ABC notation of notes played together: a header setting the unit
/// length, then the notes, each converted by `convert_note`, in brackets.
pub fn convert_notes(notes: &Vec<String>) -> (r: String)
    ensures
        r@ == abc_chord(notes.deep_view()),
{
    let mut out = String::from_str("L: 1/1 \n[");
    let ghost header = out@;
    let mut i: usize = 0;
    while i < notes.len()
        invariant
            header == "L: 1/1 \n["@,
            i <= notes.len(),
            out@ == header + notes.deep_view().subrange(0, i as int).map_values(
                |m: Seq<char>| abc_note(m),
            ).flatten(),
        decreases notes.len() - i,
    {
        let converted = convert_note(notes[i].as_str());
        out.append(converted.as_str());
        proof {
            let done = notes.deep_view().subrange(0, i as int).map_values(|m: Seq<char>| abc_note(m));
            assert(notes.deep_view().subrange(0, i + 1).map_values(|m: Seq<char>| abc_note(m))
                =~= done.push(abc_note(notes.deep_view()[i as int])));
            done.lemma_flatten_push(abc_note(notes.deep_view()[i as int]));
        }
        i = i + 1;
    }
    out.append("]");
    proof {
        assert(notes.deep_view().subrange(0, notes.len() as int) =~= notes.deep_view());
    }
    out
}

} // verus!
