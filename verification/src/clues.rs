//! Clues for a digit-deduction guessing game: "Fermi" for a correct digit in
//! the correct place, "Pico" for a correct digit in the wrong place, "Bagels"
//! for no correct digit at all. The clues are reported sorted, all the
//! "Fermi" before all the "Pico", so their order gives nothing away.

use vstd::prelude::*;

verus! {

/// Whether `s` contains the character `c`.
pub open spec fn spec_has_char(s: Seq<char>, c: char) -> bool {
    exists|i: int| 0 <= i < s.len() && s[i] == c
}

/// How many of the first `n` positions hold the same character in the guess
/// and in the secret: the "Fermi" count.
pub open spec fn spec_fermi_upto(g: Seq<char>, s: Seq<char>, n: int) -> nat
    decreases n,
{
    if n <= 0 {
        0
    } else {
        spec_fermi_upto(g, s, n - 1) + if g[n - 1] == s[n - 1] {
            1nat
        } else {
            0nat
        }
    }
}

/// How many of the first `n` guess positions hold a character that appears in
/// the secret, but not at that position: the "Pico" count.
pub open spec fn spec_pico_upto(g: Seq<char>, s: Seq<char>, n: int) -> nat
    decreases n,
{
    if n <= 0 {
        0
    } else {
        spec_pico_upto(g, s, n - 1) + if g[n - 1] != s[n - 1] && spec_has_char(s, g[n - 1]) {
            1nat
        } else {
            0nat
        }
    }
}

/// `w` repeated `n` times.
pub open spec fn spec_repeat(w: Seq<char>, n: nat) -> Seq<char>
    decreases n,
{
    if n == 0 {
        Seq::empty()
    } else {
        spec_repeat(w, (n - 1) as nat) + w
    }
}

/// The clue string for a guess against a secret: the exact answer for a hit,
/// "Bagels" when no position earns a clue, and otherwise every "Fermi"
/// followed by every "Pico".
pub open spec fn spec_clues(g: Seq<char>, s: Seq<char>) -> Seq<char> {
    if g == s {
        "You got it!"@
    } else if spec_fermi_upto(g, s, g.len() as int) + spec_pico_upto(g, s, g.len() as int) == 0 {
        "Bagels"@
    } else {
        spec_repeat("Fermi"@, spec_fermi_upto(g, s, g.len() as int)) + spec_repeat(
            "Pico"@,
            spec_pico_upto(g, s, g.len() as int),
        )
    }
}

/// Character-by-character string equality.
fn str_eq(a: &str, b: &str) -> (r: bool)
    ensures
        r == (a@ == b@),
{
    let al = a.unicode_len();
    let bl = b.unicode_len();
    if al != bl {
        return false;
    }
    let mut i: usize = 0;
    while i < al
        invariant
            0 <= i <= al,
            al == a@.len(),
            al == b@.len(),
            forall|k: int| 0 <= k < i ==> a@[k] == b@[k],
        decreases al - i,
    {
        if a.get_char(i) != b.get_char(i) {
            return false;
        }
        i = i + 1;
    }
    proof {
        assert(a@ =~= b@);
    }
    true
}

/// Whether the string holds the character anywhere.
fn str_has_char(s: &str, c: char) -> (r: bool)
    ensures
        r == spec_has_char(s@, c),
{
    let n = s.unicode_len();
    let mut i: usize = 0;
    while i < n
        invariant
            0 <= i <= n,
            n == s@.len(),
            forall|k: int| 0 <= k < i ==> s@[k] != c,
        decreases n - i,
    {
        if s.get_char(i) == c {
            return true;
        }
        i = i + 1;
    }
    false
}

/// The clues for one guess against the secret. The answer is `None` exactly
/// when the guess misses and is longer than the secret, so that some guess
/// position has no secret position to compare against; every other guess
/// gets its clue string.
pub fn get_clues(guess: &str, secret_num: &str) -> (r: Option<String>)
    ensures
        (r is Some) <==> (guess@ == secret_num@ || guess@.len() <= secret_num@.len()),
        r matches Some(c) ==> c@ == spec_clues(guess@, secret_num@),
{
    if str_eq(guess, secret_num) {
        return Some(String::from_str("You got it!"));
    }
    let gl = guess.unicode_len();
    let sl = secret_num.unicode_len();
    if gl > sl {
        return None;
    }
    let mut fermi: usize = 0;
    let mut pico: usize = 0;
    let mut i: usize = 0;
    while i < gl
        invariant
            0 <= i <= gl,
            gl == guess@.len(),
            sl == secret_num@.len(),
            gl <= sl,
            fermi + pico <= i,
            fermi == spec_fermi_upto(guess@, secret_num@, i as int),
            pico == spec_pico_upto(guess@, secret_num@, i as int),
        decreases gl - i,
    {
        let gc = guess.get_char(i);
        let sc = secret_num.get_char(i);
        if gc == sc {
            fermi = fermi + 1;
        } else if str_has_char(secret_num, gc) {
            pico = pico + 1;
        }
        i = i + 1;
    }
    if fermi == 0 && pico == 0 {
        return Some(String::from_str("Bagels"));
    }
    let mut out = String::new();
    let mut k: usize = 0;
    while k < fermi
        invariant
            0 <= k <= fermi,
            out@ == spec_repeat("Fermi"@, k as nat),
        decreases fermi - k,
    {
        out.append("Fermi");
        k = k + 1;
    }
    let mut j: usize = 0;
    while j < pico
        invariant
            0 <= j <= pico,
            out@ == spec_repeat("Fermi"@, fermi as nat) + spec_repeat("Pico"@, j as nat),
        decreases pico - j,
    {
        out.append("Pico");
        j = j + 1;
        proof {
            assert(out@ =~= spec_repeat("Fermi"@, fermi as nat) + spec_repeat(
                "Pico"@,
                j as nat,
            ));
        }
    }
    proof {
        assert(out@ =~= spec_clues(guess@, secret_num@));
    }
    Some(out)
}

} // verus!
