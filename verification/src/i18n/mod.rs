use vstd::prelude::*;

verus! {

/// The languages the blog is published in.
#[derive(Clone, Copy, PartialEq, Eq, Structural, Debug)]
pub enum I18N {
    En,
    Pt,
}

/// `c` with ASCII upper-case letters mapped to lower case; other characters unchanged.
pub open spec fn ascii_lower(c: char) -> char {
    if 'A' <= c && c <= 'Z' {
        ((c as u32) + 32) as char
    } else {
        c
    }
}

/// Two strings are equal when ASCII letter case is ignored.
pub open spec fn eq_ignore_ascii_case(a: Seq<char>, b: Seq<char>) -> bool {
    &&& a.len() == b.len()
    &&& forall|i: int| 0 <= i < a.len() ==> #[trigger] ascii_lower(a[i]) == ascii_lower(b[i])
}

impl I18N {
    /// The name of the language as it is written in routes and pages.
    pub open spec fn spec_name(self) -> Seq<char> {
        match self {
            I18N::En => seq!['E', 'n'],
            I18N::Pt => seq!['P', 't'],
        }
    }

    /// Which language, if any, a path segment names (letter case is ignored).
    pub open spec fn spec_parse(s: Seq<char>) -> Option<I18N> {
        if eq_ignore_ascii_case(s, I18N::En.spec_name()) {
            Some(I18N::En)
        } else if eq_ignore_ascii_case(s, I18N::Pt.spec_name()) {
            Some(I18N::Pt)
        } else {
            None
        }
    }

    /// The language's name, as pages and routes write it.
    pub fn name(&self) -> (r: &'static str)
        ensures
            r@ == self.spec_name(),
    {
        proof {
            reveal_strlit("En");
            reveal_strlit("Pt");
        }
        match self {
            I18N::En => "En",
            I18N::Pt => "Pt",
        }
    }

    /// Reads a language from a path segment, ignoring ASCII letter case;
    /// `None` when the segment names no language.
    pub fn parse(s: &str) -> (r: Option<I18N>)
        ensures
            r == I18N::spec_parse(s@),
    {
        let n = s.unicode_len();
        if n != 2 {
            return None;
        }
        let c0 = s.get_char(0);
        let c1 = s.get_char(1);
        if (c0 == 'e' || c0 == 'E') && (c1 == 'n' || c1 == 'N') {
            assert(eq_ignore_ascii_case(s@, I18N::En.spec_name()));
            Some(I18N::En)
        } else if (c0 == 'p' || c0 == 'P') && (c1 == 't' || c1 == 'T') {
            assert(!eq_ignore_ascii_case(s@, I18N::En.spec_name())) by {
                if eq_ignore_ascii_case(s@, I18N::En.spec_name()) {
                    assert(ascii_lower(s@[0]) == ascii_lower('E'));
                }
            }
            assert(eq_ignore_ascii_case(s@, I18N::Pt.spec_name()));
            Some(I18N::Pt)
        } else {
            assert(!eq_ignore_ascii_case(s@, I18N::En.spec_name())) by {
                if eq_ignore_ascii_case(s@, I18N::En.spec_name()) {
                    assert(ascii_lower(s@[0]) == ascii_lower('E'));
                    assert(ascii_lower(s@[1]) == ascii_lower('n'));
                }
            }
            assert(!eq_ignore_ascii_case(s@, I18N::Pt.spec_name())) by {
                if eq_ignore_ascii_case(s@, I18N::Pt.spec_name()) {
                    assert(ascii_lower(s@[0]) == ascii_lower('P'));
                    assert(ascii_lower(s@[1]) == ascii_lower('t'));
                }
            }
            None
        }
    }

    /// The language a request asks for: the path's language segment when it
    /// names one, else the default language. `segment` is `None` when the
    /// request carries no such segment.
    pub fn from_path_segment(segment: Option<String>) -> (r: I18N)
        ensures
            r == (match segment {
                Some(s) => match I18N::spec_parse(s@) {
                    Some(l) => l,
                    None => I18N::En,
                },
                None => I18N::En,
            }),
    {
        let seg = match segment {
            Some(s) => s,
            None => String::new(),
        };
        match I18N::parse(seg.as_str()) {
            Some(l) => l,
            None => I18N::default(),
        }
    }

    /// All languages, each once, in declaration order.
    pub fn langs(&self) -> (r: Vec<I18N>)
        ensures
            r@ == seq![I18N::En, I18N::Pt],
    {
        let mut v: Vec<I18N> = Vec::new();
        v.push(I18N::En);
        v.push(I18N::Pt);
        v
    }
}

impl Default for I18N {
    fn default() -> (r: I18N)
        ensures
            r == I18N::En,
    {
        I18N::En
    }
}

/// Reading a language's name back gives the language, whatever the letter case
/// of each of its two letters.
pub proof fn law_name_parses_back(l: I18N, s: Seq<char>)
    requires
        eq_ignore_ascii_case(s, l.spec_name()),
    ensures
        I18N::spec_parse(s) == Some(l),
{
    if l == I18N::Pt {
        assert(!eq_ignore_ascii_case(s, I18N::En.spec_name())) by {
            if eq_ignore_ascii_case(s, I18N::En.spec_name()) {
                assert(ascii_lower(s[0]) == ascii_lower('P'));
                assert(ascii_lower(s[0]) == ascii_lower('E'));
            }
        }
    }
}

/// Every language that `langs` lists is read back from its own name.
pub proof fn law_langs_round_trip(l: I18N)
    ensures
        seq![I18N::En, I18N::Pt].contains(l),
        I18N::spec_parse(l.spec_name()) == Some(l),
{
    law_name_parses_back(l, l.spec_name());
    assert(seq![I18N::En, I18N::Pt][0] == I18N::En);
    assert(seq![I18N::En, I18N::Pt][1] == I18N::Pt);
}

} // verus!
