//! The closed set of plugin managers under benchmark.

use vstd::prelude::*;

verus! {

/// The kind of plugin manager.
#[derive(Debug, Clone, Copy, PartialEq, Eq, Structural)]
pub enum Kind {
    Antibody,
    Antigen,
    Sheldon,
    Zgen,
    Zinit,
    Zplug,
}

impl Kind {
    /// The snake_case name of this kind, used in staging paths and report names.
    pub open spec fn spec_name(self) -> Seq<char> {
        match self {
            Kind::Antibody => "antibody"@,
            Kind::Antigen => "antigen"@,
            Kind::Sheldon => "sheldon"@,
            Kind::Zgen => "zgen"@,
            Kind::Zinit => "zinit"@,
            Kind::Zplug => "zplug"@,
        }
    }

    /// The name of this kind.
    pub fn name(self) -> (r: &'static str)
        ensures
            r@ == self.spec_name(),
    {
        match self {
            Kind::Antibody => "antibody",
            Kind::Antigen => "antigen",
            Kind::Sheldon => "sheldon",
            Kind::Zgen => "zgen",
            Kind::Zinit => "zinit",
            Kind::Zplug => "zplug",
        }
    }

    /// Every kind, in the fixed enumeration order.
    pub open spec fn spec_all() -> Seq<Kind> {
        seq![
            Kind::Antibody,
            Kind::Antigen,
            Kind::Sheldon,
            Kind::Zgen,
            Kind::Zinit,
            Kind::Zplug,
        ]
    }

    /// Returns every kind, in the fixed enumeration order.
    pub fn iter() -> (r: Vec<Kind>)
        ensures
            r@ == Kind::spec_all(),
    {
        let mut r: Vec<Kind> = Vec::new();
        r.push(Kind::Antibody);
        r.push(Kind::Antigen);
        r.push(Kind::Sheldon);
        r.push(Kind::Zgen);
        r.push(Kind::Zinit);
        r.push(Kind::Zplug);
        proof {
            assert(r@ =~= Kind::spec_all());
        }
        r
    }
}

/// The canonical form of one token character: an ASCII capital is lowered
/// and a kebab dash becomes an underscore; all else passes through.
pub open spec fn spec_fold_char(c: char) -> char {
    if c == '-' {
        '_'
    } else if c == 'A' {
        'a'
    } else if c == 'B' {
        'b'
    } else if c == 'C' {
        'c'
    } else if c == 'D' {
        'd'
    } else if c == 'E' {
        'e'
    } else if c == 'F' {
        'f'
    } else if c == 'G' {
        'g'
    } else if c == 'H' {
        'h'
    } else if c == 'I' {
        'i'
    } else if c == 'J' {
        'j'
    } else if c == 'K' {
        'k'
    } else if c == 'L' {
        'l'
    } else if c == 'M' {
        'm'
    } else if c == 'N' {
        'n'
    } else if c == 'O' {
        'o'
    } else if c == 'P' {
        'p'
    } else if c == 'Q' {
        'q'
    } else if c == 'R' {
        'r'
    } else if c == 'S' {
        's'
    } else if c == 'T' {
        't'
    } else if c == 'U' {
        'u'
    } else if c == 'V' {
        'v'
    } else if c == 'W' {
        'w'
    } else if c == 'X' {
        'x'
    } else if c == 'Y' {
        'y'
    } else if c == 'Z' {
        'z'
    } else {
        c
    }
}

/// The canonical form of a kind token: case-insensitive, with snake and
/// kebab spellings identified.
pub open spec fn spec_fold_token(s: Seq<char>) -> Seq<char> {
    s.map_values(|c: char| spec_fold_char(c))
}

/// Folds one token character to its canonical form.
fn fold_char(c: char) -> (r: char)
    ensures
        r == spec_fold_char(c),
{
    match c {
        '-' => '_',
        'A' => 'a',
        'B' => 'b',
        'C' => 'c',
        'D' => 'd',
        'E' => 'e',
        'F' => 'f',
        'G' => 'g',
        'H' => 'h',
        'I' => 'i',
        'J' => 'j',
        'K' => 'k',
        'L' => 'l',
        'M' => 'm',
        'N' => 'n',
        'O' => 'o',
        'P' => 'p',
        'Q' => 'q',
        'R' => 'r',
        'S' => 's',
        'T' => 't',
        'U' => 'u',
        'V' => 'v',
        'W' => 'w',
        'X' => 'x',
        'Y' => 'y',
        'Z' => 'z',
        _ => c,
    }
}

/// Folds a token to its canonical form.
fn fold_token(s: &str) -> (r: String)
    ensures
        r@ == spec_fold_token(s@),
{
    let n = s.unicode_len();
    let mut r = String::new();
    let mut i: usize = 0;
    while i < n
        invariant
            i <= n,
            n == s@.len(),
            r@.len() == i,
            forall|j: int| 0 <= j < i ==> r@[j] == spec_fold_char(s@[j]),
        decreases n - i,
    {
        let c = fold_char(s.get_char(i));
        crate::text::push_char(&mut r, c);
        i = i + 1;
    }
    proof {
        assert(r@ =~= spec_fold_token(s@));
    }
    r
}

impl Kind {
    /// Parses a kind token: the canonical fold of the token must equal a
    /// kind's name, so matching is case-insensitive and kebab spellings are
    /// accepted.
    pub fn from_str(s: &str) -> (r: Option<Kind>)
        ensures
            match r {
                Some(k) => spec_fold_token(s@) == k.spec_name(),
                None => forall|k: Kind| spec_fold_token(s@) != k.spec_name(),
            },
    {
        let t = fold_token(s);
        let t = t.as_str();
        if crate::text::str_eq(t, "antibody") {
            Some(Kind::Antibody)
        } else if crate::text::str_eq(t, "antigen") {
            Some(Kind::Antigen)
        } else if crate::text::str_eq(t, "sheldon") {
            Some(Kind::Sheldon)
        } else if crate::text::str_eq(t, "zgen") {
            Some(Kind::Zgen)
        } else if crate::text::str_eq(t, "zinit") {
            Some(Kind::Zinit)
        } else if crate::text::str_eq(t, "zplug") {
            Some(Kind::Zplug)
        } else {
            None
        }
    }
}

/// Distinct kinds have distinct names.
pub proof fn lemma_kind_names_injective(a: Kind, b: Kind)
    requires
        a != b,
    ensures
        a.spec_name() != b.spec_name(),
{
    reveal_strlit("antibody");
    reveal_strlit("antigen");
    reveal_strlit("sheldon");
    reveal_strlit("zgen");
    reveal_strlit("zinit");
    reveal_strlit("zplug");
    assert("antibody"@.len() == 8);
    assert("antigen"@.len() == 7);
    assert("sheldon"@.len() == 7);
    assert("zgen"@.len() == 4);
    assert("zinit"@.len() == 5);
    assert("zplug"@.len() == 5);
    assert("antigen"@[0] == 'a' && "sheldon"@[0] == 's');
    assert("zinit"@[1] == 'i' && "zplug"@[1] == 'p');
}

} // verus!
