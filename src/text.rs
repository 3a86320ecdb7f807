use vstd::prelude::*;

verus! {

/// The text with every line ending, CR LF or a lone CR, written as a single LF.
pub open spec fn normalize_eol(s: Seq<char>) -> Seq<char>
    decreases s.len(),
{
    if s.len() == 0 {
        s
    } else if s.len() >= 2 && s[0] == '\r' && s[1] == '\n' {
        seq!['\n'] + normalize_eol(s.skip(2))
    } else if s[0] == '\r' {
        seq!['\n'] + normalize_eol(s.skip(1))
    } else {
        seq![s[0]] + normalize_eol(s.skip(1))
    }
}

/// The text with every CR LF pair, taken from the left, turned into a single LF.
pub open spec fn crlf_to_lf(s: Seq<char>) -> Seq<char>
    decreases s.len(),
{
    if s.len() == 0 {
        s
    } else if s.len() >= 2 && s[0] == '\r' && s[1] == '\n' {
        seq!['\n'] + crlf_to_lf(s.skip(2))
    } else {
        seq![s[0]] + crlf_to_lf(s.skip(1))
    }
}

/// The text with every CR turned into an LF.
pub open spec fn cr_to_lf(s: Seq<char>) -> Seq<char> {
    s.map_values(|c: char| if c == '\r' { '\n' } else { c })
}

/// The text with every LF written as CR LF, as it is saved on some platforms.
pub open spec fn lf_to_crlf(s: Seq<char>) -> Seq<char>
    decreases s.len(),
{
    if s.len() == 0 {
        s
    } else if s[0] == '\n' {
        seq!['\r', '\n'] + lf_to_crlf(s.skip(1))
    } else {
        seq![s[0]] + lf_to_crlf(s.skip(1))
    }
}

/// The text with every LF written as a lone CR.
pub open spec fn lf_to_cr(s: Seq<char>) -> Seq<char> {
    s.map_values(|c: char| if c == '\n' { '\r' } else { c })
}

pub open spec fn has_no_cr(s: Seq<char>) -> bool {
    forall|i: int| 0 <= i < s.len() ==> s[i] != '\r'
}

/// Relies on `str::replace`: each non-overlapping "\r\n", left to right, becomes "\n".
#[verifier::external_body]
fn replace_crlf(s: &str) -> (r: String)
    ensures
        r@ == crlf_to_lf(s@),
{
    s.replace("\r\n", "\n")
}

/// Relies on `str::replace`: each '\r' becomes "\n".
#[verifier::external_body]
fn replace_cr(s: &str) -> (r: String)
    ensures
        r@ == cr_to_lf(s@),
{
    s.replace('\r', "\n")
}

proof fn lemma_cr_to_lf_cons(c: char, s: Seq<char>)
    ensures
        cr_to_lf(seq![c] + s) == seq![if c == '\r' { '\n' } else { c }] + cr_to_lf(s),
{
    assert(cr_to_lf(seq![c] + s) =~= seq![if c == '\r' { '\n' } else { c }] + cr_to_lf(s));
}

/// Turning CR LF into LF and then every CR left into LF normalizes all line endings.
proof fn lemma_two_passes(s: Seq<char>)
    ensures
        cr_to_lf(crlf_to_lf(s)) == normalize_eol(s),
    decreases s.len(),
{
    if s.len() == 0 {
        assert(cr_to_lf(s) =~= s);
    } else if s.len() >= 2 && s[0] == '\r' && s[1] == '\n' {
        lemma_two_passes(s.skip(2));
        lemma_cr_to_lf_cons('\n', crlf_to_lf(s.skip(2)));
    } else {
        lemma_two_passes(s.skip(1));
        lemma_cr_to_lf_cons(s[0], crlf_to_lf(s.skip(1)));
    }
}

/// Script text with its line endings, CR LF or CR, brought to LF, so that the
/// same text saved on any platform reads the same.
pub fn normalize_line_endings(s: &str) -> (r: String)
    ensures
        r@ == normalize_eol(s@),
{
    let once = replace_crlf(s);
    let r = replace_cr(once.as_str());
    proof {
        lemma_two_passes(s@);
    }
    r
}

/// Text without carriage returns is left as it is by normalization.
pub proof fn lemma_normalize_plain(s: Seq<char>)
    requires
        has_no_cr(s),
    ensures
        normalize_eol(s) == s,
    decreases s.len(),
{
    if s.len() > 0 {
        assert(has_no_cr(s.skip(1)));
        lemma_normalize_plain(s.skip(1));
        assert(seq![s[0]] + s.skip(1) =~= s);
    }
}

/// The same logical text, saved with CR LF, with lone CR or with LF line
/// endings, normalizes to identical content.
pub proof fn lemma_crlf_and_lf_agree(s: Seq<char>)
    requires
        has_no_cr(s),
    ensures
        normalize_eol(lf_to_crlf(s)) == s,
        normalize_eol(lf_to_cr(s)) == s,
        normalize_eol(s) == s,
    decreases s.len(),
{
    lemma_normalize_plain(s);
    if s.len() > 0 {
        assert(has_no_cr(s.skip(1)));
        lemma_crlf_and_lf_agree(s.skip(1));
        let t = lf_to_crlf(s);
        let u = lf_to_cr(s);
        assert(u.skip(1) =~= lf_to_cr(s.skip(1)));
        if s[0] == '\n' {
            assert(t.skip(2) =~= lf_to_crlf(s.skip(1)));
            assert(normalize_eol(t) =~= seq!['\n'] + s.skip(1));
            if u.len() >= 2 && u[1] == '\n' {
                assert(s[1] != '\n');
            }
            assert(normalize_eol(u) =~= seq!['\n'] + s.skip(1));
        } else {
            assert(t.skip(1) =~= lf_to_crlf(s.skip(1)));
            assert(t[0] == s[0]);
            assert(normalize_eol(t) =~= seq![s[0]] + s.skip(1));
            assert(normalize_eol(u) =~= seq![s[0]] + s.skip(1));
        }
        assert(seq![s[0]] + s.skip(1) =~= s);
    }
}

} // verus!
