use vstd::prelude::*;

verus! {

/// What `str::trim_end` leaves of a string: the string without its trailing
/// whitespace, as Unicode defines whitespace.
pub uninterp spec fn trim_end_of(s: Seq<char>) -> Seq<char>;

/// Relies on `str::trim_end`: the result depends on the characters alone.
#[verifier::external_body]
fn trimmed_end(s: &str) -> (r: &str)
    ensures
        r@ == trim_end_of(s@),
{
    s.trim_end()
}

/// An answer, with trailing whitespace already removed, that confirms the
/// conversion: a single `y`, in either case.
pub open spec fn is_yes(t: Seq<char>) -> bool {
    t == seq!['y'] || t == seq!['Y']
}

/// Whether an answer that has already been trimmed at its end confirms the
/// conversion.
pub fn confirms_trimmed(t: &str) -> (r: bool)
    ensures
        r == is_yes(t@),
{
    if t.unicode_len() != 1 {
        return false;
    }
    let c = t.get_char(0);
    let r = c == 'y' || c == 'Y';
    proof {
        if r {
            assert(t@ =~= seq![c]);
        }
    }
    r
}

/// Whether a line typed at the confirmation prompt confirms the conversion:
/// once its trailing whitespace (the line break among it) is removed, it must
/// be `y` or `Y`, and anything else, the empty line included, declines.
pub fn confirms(line: &str) -> (r: bool)
    ensures
        r == is_yes(trim_end_of(line@)),
{
    confirms_trimmed(trimmed_end(line))
}

} // verus!
