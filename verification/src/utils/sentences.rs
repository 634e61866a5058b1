use vstd::prelude::*;
use vstd::string::StrSliceExecFns;
use vstd::string::StringExecFns;

verus! {

/// The parts joined with the separator between each neighbouring pair.
pub open spec fn spec_join(parts: Seq<Seq<char>>, separator: Seq<char>) -> Seq<char>
    decreases parts.len(),
{
    if parts.len() == 0 {
        Seq::<char>::empty()
    } else if parts.len() == 1 {
        parts[0]
    } else {
        spec_join(parts.drop_last(), separator) + separator + parts.last()
    }
}

/// Join the parts with the separator between each neighbouring pair.
pub fn join_parts(parts: &Vec<String>, separator: &str) -> (r: String)
    ensures
        r@ == spec_join(parts@.map_values(|p: String| p@), separator@),
{
    let ghost m = parts@.map_values(|p: String| p@);
    let mut r = String::new();
    let mut i: usize = 0;
    while i < parts.len()
        invariant
            i <= parts@.len(),
            m == parts@.map_values(|p: String| p@),
            r@ == spec_join(m.take(i as int), separator@),
        decreases parts@.len() - i,
    {
        proof {
            assert(m.take(i + 1).drop_last() =~= m.take(i as int));
            assert(m.take(i + 1).last() == m[i as int]);
        }
        if i > 0 {
            r.append(separator);
        }
        r.append(parts[i].as_str());
        i = i + 1;
    }
    proof {
        assert(m.take(parts@.len() as int) =~= m);
    }
    r
}

/// The character with a lower-case ascii letter replaced by its upper-case form.
pub open spec fn spec_upper_char(c: char) -> char {
    match c {
        'a' => 'A',
        'b' => 'B',
        'c' => 'C',
        'd' => 'D',
        'e' => 'E',
        'f' => 'F',
        'g' => 'G',
        'h' => 'H',
        'i' => 'I',
        'j' => 'J',
        'k' => 'K',
        'l' => 'L',
        'm' => 'M',
        'n' => 'N',
        'o' => 'O',
        'p' => 'P',
        'q' => 'Q',
        'r' => 'R',
        's' => 'S',
        't' => 'T',
        'u' => 'U',
        'v' => 'V',
        'w' => 'W',
        'x' => 'X',
        'y' => 'Y',
        'z' => 'Z',
        _ => c,
    }
}

/// The text with its first letter upper-cased.
pub open spec fn spec_capitalized(s: Seq<char>) -> Seq<char> {
    if s.len() == 0 {
        s
    } else {
        seq![spec_upper_char(s[0])] + s.skip(1)
    }
}

/// The upper-case literal for a lower-case ascii letter, if it is one.
fn upper_str(c: char) -> (r: Option<&'static str>)
    ensures
        match r {
            Some(u) => u@ =~= seq![spec_upper_char(c)] && spec_upper_char(c) != c,
            None => spec_upper_char(c) == c,
        },
{
    proof {
        reveal_strlit("A");
        reveal_strlit("B");
        reveal_strlit("C");
        reveal_strlit("D");
        reveal_strlit("E");
        reveal_strlit("F");
        reveal_strlit("G");
        reveal_strlit("H");
        reveal_strlit("I");
        reveal_strlit("J");
        reveal_strlit("K");
        reveal_strlit("L");
        reveal_strlit("M");
        reveal_strlit("N");
        reveal_strlit("O");
        reveal_strlit("P");
        reveal_strlit("Q");
        reveal_strlit("R");
        reveal_strlit("S");
        reveal_strlit("T");
        reveal_strlit("U");
        reveal_strlit("V");
        reveal_strlit("W");
        reveal_strlit("X");
        reveal_strlit("Y");
        reveal_strlit("Z");
    }
    match c {
        'a' => Some("A"),
        'b' => Some("B"),
        'c' => Some("C"),
        'd' => Some("D"),
        'e' => Some("E"),
        'f' => Some("F"),
        'g' => Some("G"),
        'h' => Some("H"),
        'i' => Some("I"),
        'j' => Some("J"),
        'k' => Some("K"),
        'l' => Some("L"),
        'm' => Some("M"),
        'n' => Some("N"),
        'o' => Some("O"),
        'p' => Some("P"),
        'q' => Some("Q"),
        'r' => Some("R"),
        's' => Some("S"),
        't' => Some("T"),
        'u' => Some("U"),
        'v' => Some("V"),
        'w' => Some("W"),
        'x' => Some("X"),
        'y' => Some("Y"),
        'z' => Some("Z"),
        _ => None,
    }
}

/// The text with its first letter upper-cased.
pub fn first_letter_to_upper_case(text: &str) -> (r: String)
    ensures
        r@ == spec_capitalized(text@),
{
    let n = text.unicode_len();
    if n == 0 {
        let r = String::new();
        proof {
            assert(r@ =~= spec_capitalized(text@));
        }
        return r;
    }
    let first = text.get_char(0);
    match upper_str(first) {
        Some(u) => {
            let rest = text.substring_char(1, n);
            let r = String::from_str(u).concat(rest);
            proof {
                assert(r@ =~= spec_capitalized(text@));
            }
            r
        },
        None => {
            let r = text.to_owned();
            proof {
                assert(r@ =~= spec_capitalized(text@));
            }
            r
        },
    }
}

} // verus!
